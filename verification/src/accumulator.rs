//! The result set: accepted records, each content once.

use crate::record::{Record, RecordView};
use vstd::prelude::*;

verus! {

/// The contents of the records of `held`, in order.
pub open spec fn contents(held: Seq<Record>) -> Seq<RecordView> {
    held.map_values(|r: Record| r@)
}

/// A set of records keyed on their whole content. It only grows.
#[derive(Debug)]
pub struct Accumulator {
    records: Vec<Record>,
}

impl View for Accumulator {
    type V = Set<RecordView>;

    closed spec fn view(&self) -> Set<RecordView> {
        contents(self.records@).to_set()
    }
}

impl Accumulator {
    /// No content is held twice.
    pub closed spec fn well_formed(&self) -> bool {
        contents(self.records@).no_duplicates()
    }

    /// An empty set.
    pub fn new() -> (r: Accumulator)
        ensures
            r.well_formed(),
            r@ == Set::<RecordView>::empty(),
    {
        let r = Accumulator { records: Vec::new() };
        assert(contents(r.records@).to_set() =~= Set::<RecordView>::empty());
        r
    }

    /// The number of records held.
    pub fn len(&self) -> (n: usize)
        requires
            self.well_formed(),
        ensures
            n == self@.len(),
            self@.finite(),
    {
        proof {
            contents(self.records@).unique_seq_to_set();
        }
        self.records.len()
    }

    /// Whether a record with this content is held.
    pub fn contains(&self, email: &Record) -> (r: bool)
        ensures
            r == self@.contains(email@),
    {
        let mut i: usize = 0;
        while i < self.records.len()
            invariant
                i <= self.records.len(),
                forall|j: int| 0 <= j < i ==> contents(self.records@)[j] != email@,
            decreases self.records.len() - i,
        {
            if self.records[i].same_content(email) {
                assert(contents(self.records@)[i as int] == email@);
                return true;
            }
            i += 1;
        }
        false
    }

    /// Adds `email` unless a record with the same content is already held.
    /// Returns whether it was added.
    pub fn accept(&mut self, email: Record) -> (added: bool)
        requires
            old(self).well_formed(),
        ensures
            final(self).well_formed(),
            final(self)@ == old(self)@.insert(email@),
            added == !old(self)@.contains(email@),
            final(self)@.len() == old(self)@.len() + if added { 1nat } else { 0nat },
    {
        proof {
            contents(self.records@).unique_seq_to_set();
        }
        if self.contains(&email) {
            assert(self@.insert(email@) =~= self@);
            false
        } else {
            let ghost before = contents(self.records@);
            self.records.push(email);
            proof {
                let after = contents(self.records@);
                assert(after =~= before.push(email@));
                before.lemma_push_to_set_commute(email@);
            }
            true
        }
    }

    /// The records held, each once.
    pub fn records(&self) -> (r: &Vec<Record>)
        ensures
            contents(r@).to_set() == self@,
            self.well_formed() ==> contents(r@).no_duplicates(),
    {
        &self.records
    }

    /// Gives up the set for the records it held, each once.
    pub fn into_records(self) -> (r: Vec<Record>)
        ensures
            contents(r@).to_set() == self@,
            self.well_formed() ==> contents(r@).no_duplicates(),
    {
        self.records
    }
}

/// The set after the records of `emails` are accepted one by one into `held`.
pub open spec fn after_accepting(held: Set<RecordView>, emails: Seq<RecordView>) -> Set<
    RecordView,
>
    decreases emails.len(),
{
    if emails.len() == 0 {
        held
    } else {
        after_accepting(held, emails.drop_last()).insert(emails.last())
    }
}

/// How many of those accepts add a record.
pub open spec fn times_added(held: Set<RecordView>, emails: Seq<RecordView>) -> nat
    decreases emails.len(),
{
    if emails.len() == 0 {
        0
    } else if after_accepting(held, emails.drop_last()).contains(emails.last()) {
        times_added(held, emails.drop_last())
    } else {
        times_added(held, emails.drop_last()) + 1
    }
}

/// Accepting a content a second time changes nothing: the set and its size
/// stay as they were after the first accept, and the second accept adds
/// nothing.
pub proof fn accept_is_idempotent(held: Set<RecordView>, email: RecordView)
    ensures
        held.insert(email).contains(email),
        held.insert(email).insert(email) == held.insert(email),
        after_accepting(held, seq![email, email]) == after_accepting(held, seq![email]),
        times_added(held, seq![email, email]) == times_added(held, seq![email]),
{
    reveal_with_fuel(after_accepting, 3);
    reveal_with_fuel(times_added, 3);
    assert(held.insert(email).insert(email) =~= held.insert(email));
    let once = seq![email];
    let twice = seq![email, email];
    assert(once.drop_last() =~= Seq::<RecordView>::empty());
    assert(twice.drop_last() =~= once);
    assert(after_accepting(held, once) == held.insert(email));
    assert(after_accepting(held, twice) == held.insert(email).insert(email));
}

/// An accept adds a record exactly once for each distinct content: after any
/// run of accepts the set holds what it held before and every content that
/// was offered, and it has grown by the number of accepts that added one.
pub proof fn accept_adds_once_per_content(held: Set<RecordView>, emails: Seq<RecordView>)
    requires
        held.finite(),
    ensures
        after_accepting(held, emails).finite(),
        after_accepting(held, emails) == held.union(emails.to_set()),
        after_accepting(held, emails).len() == held.len() + times_added(held, emails),
    decreases emails.len(),
{
    if emails.len() == 0 {
        assert(held.union(emails.to_set()) =~= held);
    } else {
        let earlier = emails.drop_last();
        let email = emails.last();
        accept_adds_once_per_content(held, earlier);
        assert(emails =~= earlier.push(email));
        earlier.lemma_push_to_set_commute(email);
        assert(held.union(emails.to_set()) =~= held.union(earlier.to_set()).insert(email));
    }
}

} // verus!
