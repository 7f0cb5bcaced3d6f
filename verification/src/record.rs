//! One fetched message.

use crate::timestamp::Timestamp;
use vstd::prelude::*;

verus! {

/// A fetched message. Two records are the same message when all four fields
/// agree.
#[derive(Clone, Debug, PartialEq, Eq, Hash)]
pub struct Record {
    pub sender: String,
    pub subject: String,
    pub body: String,
    pub timestamp: Timestamp,
}

/// The content of a record.
pub struct RecordView {
    pub sender: Seq<char>,
    pub subject: Seq<char>,
    pub body: Seq<char>,
    pub timestamp: Timestamp,
}

impl View for Record {
    type V = RecordView;

    open spec fn view(&self) -> RecordView {
        RecordView {
            sender: self.sender@,
            subject: self.subject@,
            body: self.body@,
            timestamp: self.timestamp,
        }
    }
}

impl Record {
    /// Whether two records hold the same content.
    pub fn same_content(&self, other: &Record) -> (r: bool)
        ensures
            r == (self@ == other@),
    {
        self.sender == other.sender && self.subject == other.subject && self.body == other.body
            && self.timestamp == other.timestamp
    }
}

} // verus!
