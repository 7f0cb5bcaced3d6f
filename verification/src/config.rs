//! The settings of one run.

use crate::filter::{Filter, FilterView};
use vstd::prelude::*;

verus! {

/// The continuation predicate: polling goes on while neither bound is
/// reached. A bound of zero is no bound.
pub open spec fn keeps_going(max_volume: nat, emails: nat, searched: nat, downloaded: nat) -> bool {
    (max_volume == 0 || searched < max_volume) && (emails == 0 || downloaded < emails)
}

/// The settings of one run, fixed before the first fetch.
#[derive(Debug)]
pub struct RunConfig {
    /// How many records to collect; zero for no limit.
    pub emails: usize,
    /// How many records to look through; zero for no limit.
    pub max_volume: usize,
    /// The pause between two fetches, in milliseconds.
    pub cooldown_ms: u64,
    /// How many failed fetches in a row are retried.
    pub retries: usize,
    /// The pause before a reconnection attempt, in milliseconds. Without
    /// one the run is abandoned once the retries are used up.
    pub reconnect_ms: Option<u64>,
    /// The filter a record must pass to be collected.
    pub filter: Filter,
}

impl RunConfig {
    /// The same settings with a narrower filter: a record must pass the
    /// filter of the settings and `extra`.
    pub fn narrowed(self, extra: Filter) -> (r: RunConfig)
        ensures
            r.emails == self.emails,
            r.max_volume == self.max_volume,
            r.cooldown_ms == self.cooldown_ms,
            r.retries == self.retries,
            r.reconnect_ms == self.reconnect_ms,
            r.filter@ == FilterView::And(Box::new(self.filter@), Box::new(extra@)),
    {
        RunConfig {
            emails: self.emails,
            max_volume: self.max_volume,
            cooldown_ms: self.cooldown_ms,
            retries: self.retries,
            reconnect_ms: self.reconnect_ms,
            filter: Filter::and(self.filter, extra),
        }
    }

    /// Whether polling goes on after `searched` records were looked through
    /// and `downloaded` of them collected.
    pub fn should_continue(&self, searched: usize, downloaded: usize) -> (r: bool)
        ensures
            r == keeps_going(
                self.max_volume as nat,
                self.emails as nat,
                searched as nat,
                downloaded as nat,
            ),
    {
        (self.max_volume == 0 || searched < self.max_volume) && (self.emails == 0 || downloaded
            < self.emails)
    }
}

} // verus!
