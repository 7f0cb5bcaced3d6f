//! Polling core of a Space Email scraper: content and time filters, the
//! filter expression language, the deduplicating result set, and the
//! retry/reconnect state machine that drives one fetch at a time.

pub mod accumulator;
pub mod args;
pub mod config;
pub mod filter;
pub mod parser;
pub mod pattern;
pub mod record;
pub mod runs;
pub mod scraper;
pub mod syntax;
pub mod timestamp;
