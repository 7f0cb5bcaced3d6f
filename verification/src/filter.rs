//! The predicate engine: a boolean expression over one record.

use crate::pattern::{regex_finds, Pattern};
use crate::record::{Record, RecordView};
use crate::timestamp::Timestamp;
use vstd::prelude::*;

verus! {

/// A boolean expression over the fields of a record. Each node owns its
/// operands.
#[derive(Debug)]
pub enum Filter {
    Or(Box<Filter>, Box<Filter>),
    And(Box<Filter>, Box<Filter>),
    Not(Box<Filter>),
    MatchSender(Pattern),
    MatchSubject(Pattern),
    MatchBody(Pattern),
    BeforeTime(Timestamp),
    AfterTime(Timestamp),
    Empty,
}

/// The expression a filter stands for, with each pattern as its text.
pub enum FilterView {
    Or(Box<FilterView>, Box<FilterView>),
    And(Box<FilterView>, Box<FilterView>),
    Not(Box<FilterView>),
    MatchSender(Seq<char>),
    MatchSubject(Seq<char>),
    MatchBody(Seq<char>),
    BeforeTime(Timestamp),
    AfterTime(Timestamp),
    Empty,
}

impl FilterView {
    /// Whether the expression is true of `record`.
    pub open spec fn holds(self, record: RecordView) -> bool
        decreases self,
    {
        match self {
            FilterView::Or(a, b) => a.holds(record) || b.holds(record),
            FilterView::And(a, b) => a.holds(record) && b.holds(record),
            FilterView::Not(f) => !f.holds(record),
            FilterView::MatchSender(p) => regex_finds(p, record.sender),
            FilterView::MatchSubject(p) => regex_finds(p, record.subject),
            FilterView::MatchBody(p) => regex_finds(p, record.body),
            FilterView::BeforeTime(t) => record.timestamp.at_or_before(t),
            FilterView::AfterTime(t) => t.at_or_before(record.timestamp),
            FilterView::Empty => true,
        }
    }
}

impl View for Filter {
    type V = FilterView;

    open spec fn view(&self) -> FilterView {
        self.expression()
    }
}

impl Filter {
    /// The expression this filter stands for.
    pub open spec fn expression(&self) -> FilterView
        decreases self,
    {
        match self {
            Filter::Or(a, b) => FilterView::Or(Box::new(a.expression()), Box::new(b.expression())),
            Filter::And(a, b) => FilterView::And(
                Box::new(a.expression()),
                Box::new(b.expression()),
            ),
            Filter::Not(f) => FilterView::Not(Box::new(f.expression())),
            Filter::MatchSender(p) => FilterView::MatchSender(p@),
            Filter::MatchSubject(p) => FilterView::MatchSubject(p@),
            Filter::MatchBody(p) => FilterView::MatchBody(p@),
            Filter::BeforeTime(t) => FilterView::BeforeTime(*t),
            Filter::AfterTime(t) => FilterView::AfterTime(*t),
            Filter::Empty => FilterView::Empty,
        }
    }

    /// The filter that holds where both `a` and `b` hold.
    pub fn and(a: Filter, b: Filter) -> (r: Filter)
        ensures
            r@ == FilterView::And(Box::new(a@), Box::new(b@)),
    {
        Filter::And(Box::new(a), Box::new(b))
    }

    /// The filter that holds where `a` or `b` holds.
    pub fn or(a: Filter, b: Filter) -> (r: Filter)
        ensures
            r@ == FilterView::Or(Box::new(a@), Box::new(b@)),
    {
        Filter::Or(Box::new(a), Box::new(b))
    }

    /// The filter that holds where `a` does not.
    pub fn not(a: Filter) -> (r: Filter)
        ensures
            r@ == FilterView::Not(Box::new(a@)),
    {
        Filter::Not(Box::new(a))
    }

    /// Evaluates the expression against one record.
    pub fn matches(&self, email: &Record) -> (r: bool)
        ensures
            r == self@.holds(email@),
        decreases self,
    {
        match self {
            Filter::Or(a, b) => a.matches(email) || b.matches(email),
            Filter::And(a, b) => a.matches(email) && b.matches(email),
            Filter::Not(f) => !f.matches(email),
            Filter::MatchSender(p) => p.found_in(email.sender.as_str()),
            Filter::MatchSubject(p) => p.found_in(email.subject.as_str()),
            Filter::MatchBody(p) => p.found_in(email.body.as_str()),
            Filter::BeforeTime(t) => email.timestamp.le(t),
            Filter::AfterTime(t) => email.timestamp.ge(t),
            Filter::Empty => true,
        }
    }
}

/// `Empty` is true of every record.
pub proof fn empty_holds_of_every_record(record: RecordView)
    ensures
        FilterView::Empty.holds(record),
{
}

/// `And`, `Or` and `Not` are conjunction, disjunction and negation of what
/// their operands say of the record.
pub proof fn connectives_are_boolean(a: FilterView, b: FilterView, record: RecordView)
    ensures
        FilterView::And(Box::new(a), Box::new(b)).holds(record) == (a.holds(record) && b.holds(
            record,
        )),
        FilterView::Or(Box::new(a), Box::new(b)).holds(record) == (a.holds(record) || b.holds(
            record,
        )),
        FilterView::Not(Box::new(a)).holds(record) == !a.holds(record),
{
}

/// De Morgan: the negation of a conjunction is the disjunction of the
/// negations, and the negation of a disjunction is the conjunction of the
/// negations.
pub proof fn de_morgan(a: FilterView, b: FilterView, record: RecordView)
    ensures
        FilterView::Not(Box::new(FilterView::And(Box::new(a), Box::new(b)))).holds(record)
            == FilterView::Or(
            Box::new(FilterView::Not(Box::new(a))),
            Box::new(FilterView::Not(Box::new(b))),
        ).holds(record),
        FilterView::Not(Box::new(FilterView::Or(Box::new(a), Box::new(b)))).holds(record)
            == FilterView::And(
            Box::new(FilterView::Not(Box::new(a))),
            Box::new(FilterView::Not(Box::new(b))),
        ).holds(record),
{
    reveal_with_fuel(FilterView::holds, 3);
}

/// Negating twice changes nothing.
pub proof fn double_negation(a: FilterView, record: RecordView)
    ensures
        FilterView::Not(Box::new(FilterView::Not(Box::new(a)))).holds(record) == a.holds(record),
{
    reveal_with_fuel(FilterView::holds, 3);
}

} // verus!
