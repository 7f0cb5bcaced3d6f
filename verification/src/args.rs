//! The options of a run as they are given on the command line.

use crate::config::{keeps_going, RunConfig};
use crate::filter::{Filter, FilterView};
use crate::pattern::{regex_finds, Pattern};
use crate::record::{Record, RecordView};
use crate::timestamp::Timestamp;
use vstd::prelude::*;

verus! {

/// The options of a run.
#[derive(Debug)]
pub struct Args {
    /// The number of emails to download. 0 means infinite.
    pub emails: usize,
    /// The directory to save downloaded emails to.
    pub save_path: Option<String>,
    /// The minimum time between requests, in milliseconds.
    pub cooldown_ms: u64,
    /// The maximum number of emails to search before stopping. 0 means
    /// infinite.
    pub max_volume: usize,
    /// The number of times to retry a failed request.
    pub retries: usize,
    /// Give up when the connection is lost.
    pub no_reconnect: bool,
    /// How long to wait before an attempt to reconnect, in milliseconds.
    pub reconnect_ms: u64,
    /// Only emails sent at or before this moment.
    pub before: Option<Timestamp>,
    /// Only emails sent at or after this moment.
    pub after: Option<Timestamp>,
    /// Matched against the sender.
    pub sender: Option<Pattern>,
    /// Matched against the subject.
    pub subject: Option<Pattern>,
    /// Matched against the body.
    pub body: Option<Pattern>,
    /// Matched against sender, subject and body.
    pub any: Option<Pattern>,
    /// Every content matcher must match, rather than at least one.
    pub all: bool,
}

/// What a matcher for one field says of a text: nothing where the matcher is
/// absent.
pub open spec fn verdict(matcher: Option<Pattern>, text: Seq<char>) -> Option<bool> {
    match matcher {
        Some(p) => Some(regex_finds(p@, text)),
        None => None,
    }
}

/// What the matcher for any field says of a record.
pub open spec fn verdict_anywhere(matcher: Option<Pattern>, record: RecordView) -> Option<bool> {
    match matcher {
        Some(p) => Some(
            regex_finds(p@, record.sender) || regex_finds(p@, record.subject) || regex_finds(
                p@,
                record.body,
            ),
        ),
        None => None,
    }
}

/// The filter that looks for `pattern` in sender, subject or body.
pub open spec fn anywhere(pattern: Seq<char>) -> FilterView {
    FilterView::Or(
        Box::new(
            FilterView::Or(
                Box::new(FilterView::MatchSender(pattern)),
                Box::new(FilterView::MatchSubject(pattern)),
            ),
        ),
        Box::new(FilterView::MatchBody(pattern)),
    )
}

/// The filter that is false of every record.
pub open spec fn never() -> FilterView {
    FilterView::Not(Box::new(FilterView::Empty))
}

/// `found` where a matcher is present, `absent` where it is not.
pub open spec fn or_else(found: Option<FilterView>, absent: FilterView) -> FilterView {
    match found {
        Some(f) => f,
        None => absent,
    }
}

impl Args {
    /// The time bounds: a record must lie inside both that are given.
    pub open spec fn in_time(&self, record: RecordView) -> bool {
        &&& self.before matches Some(b) ==> record.timestamp.at_or_before(b)
        &&& self.after matches Some(a) ==> a.at_or_before(record.timestamp)
    }

    /// The verdicts of the four content matchers, in the order sender,
    /// subject, body, any.
    pub open spec fn verdicts(&self, record: RecordView) -> Seq<Option<bool>> {
        seq![
            verdict(self.sender, record.sender),
            verdict(self.subject, record.subject),
            verdict(self.body, record.body),
            verdict_anywhere(self.any, record),
        ]
    }

    /// The content matchers: with `all`, none that is given fails; without
    /// it, none is given or one that is given succeeds.
    pub open spec fn in_content(&self, record: RecordView) -> bool {
        let v = self.verdicts(record);
        if self.all {
            forall|i: int| 0 <= i < 4 ==> v[i] != Some(false)
        } else {
            (forall|i: int| 0 <= i < 4 ==> v[i] is None) || (exists|i: int|
                0 <= i < 4 && v[i] == Some(true))
        }
    }

    /// Whether the options let a record through.
    pub open spec fn accepts(&self, record: RecordView) -> bool {
        self.in_time(record) && self.in_content(record)
    }

    /// The four content matchers as filters, in the order sender, subject,
    /// body, any.
    pub open spec fn matchers(&self) -> Seq<Option<FilterView>> {
        seq![
            match self.sender {
                Some(p) => Some(FilterView::MatchSender(p@)),
                None => None,
            },
            match self.subject {
                Some(p) => Some(FilterView::MatchSubject(p@)),
                None => None,
            },
            match self.body {
                Some(p) => Some(FilterView::MatchBody(p@)),
                None => None,
            },
            match self.any {
                Some(p) => Some(anywhere(p@)),
                None => None,
            },
        ]
    }

    /// The options as one filter expression: both time bounds, and the
    /// content matchers joined by `And` under `all` and by `Or` without it.
    /// An absent bound or matcher is `Empty` under `And`; under `Or` it is
    /// the negation of `Empty`, unless every matcher is absent, when the
    /// whole content part is `Empty`.
    pub open spec fn as_filter(&self) -> FilterView {
        let time = FilterView::And(
            Box::new(
                match self.before {
                    Some(b) => FilterView::BeforeTime(b),
                    None => FilterView::Empty,
                },
            ),
            Box::new(
                match self.after {
                    Some(a) => FilterView::AfterTime(a),
                    None => FilterView::Empty,
                },
            ),
        );
        let m = self.matchers();
        let content = if self.all {
            FilterView::And(
                Box::new(
                    FilterView::And(
                        Box::new(
                            FilterView::And(
                                Box::new(or_else(m[0], FilterView::Empty)),
                                Box::new(or_else(m[1], FilterView::Empty)),
                            ),
                        ),
                        Box::new(or_else(m[2], FilterView::Empty)),
                    ),
                ),
                Box::new(or_else(m[3], FilterView::Empty)),
            )
        } else if m[0] is None && m[1] is None && m[2] is None && m[3] is None {
            FilterView::Empty
        } else {
            FilterView::Or(
                Box::new(
                    FilterView::Or(
                        Box::new(
                            FilterView::Or(
                                Box::new(or_else(m[0], never())),
                                Box::new(or_else(m[1], never())),
                            ),
                        ),
                        Box::new(or_else(m[2], never())),
                    ),
                ),
                Box::new(or_else(m[3], never())),
            )
        };
        FilterView::And(Box::new(time), Box::new(content))
    }

    /// Whether polling goes on after `searched` emails were looked through
    /// and `downloaded` of them kept.
    pub fn should_continue(&self, searched: usize, downloaded: usize) -> (r: bool)
        ensures
            r == keeps_going(
                self.max_volume as nat,
                self.emails as nat,
                searched as nat,
                downloaded as nat,
            ),
    {
        (self.max_volume == 0 || searched < self.max_volume) && (self.emails == 0 || downloaded
            < self.emails)
    }

    /// Whether the options let `email` through.
    pub fn filter(&self, email: &Record) -> (r: bool)
        ensures
            r == self.accepts(email@),
    {
        if let Some(before) = &self.before {
            if !email.timestamp.le(before) {
                return false;
            }
        }
        if let Some(after) = &self.after {
            if !email.timestamp.ge(after) {
                return false;
            }
        }
        let sender_matches = match &self.sender {
            Some(sender) => Some(sender.found_in(email.sender.as_str())),
            None => None,
        };
        let subject_matches = match &self.subject {
            Some(subject) => Some(subject.found_in(email.subject.as_str())),
            None => None,
        };
        let body_matches = match &self.body {
            Some(body) => Some(body.found_in(email.body.as_str())),
            None => None,
        };
        let any_matches = match &self.any {
            Some(any) => Some(
                any.found_in(email.sender.as_str()) || any.found_in(email.subject.as_str())
                    || any.found_in(email.body.as_str()),
            ),
            None => None,
        };
        let ghost v = self.verdicts(email@);
        assert(v[0] == sender_matches && v[1] == subject_matches && v[2] == body_matches && v[3]
            == any_matches);
        if self.all {
            !is_false(sender_matches) && !is_false(subject_matches) && !is_false(body_matches)
                && !is_false(any_matches)
        } else {
            (sender_matches.is_none() && subject_matches.is_none() && body_matches.is_none()
                && any_matches.is_none()) || is_true(sender_matches) || is_true(subject_matches)
                || is_true(body_matches) || is_true(any_matches)
        }
    }

    /// Turns the options into the settings of a run, with the matchers and
    /// time bounds as one filter.
    pub fn into_config(self) -> (config: RunConfig)
        ensures
            config.emails == self.emails,
            config.max_volume == self.max_volume,
            config.cooldown_ms == self.cooldown_ms,
            config.retries == self.retries,
            config.reconnect_ms == if self.no_reconnect {
                None
            } else {
                Some(self.reconnect_ms)
            },
            config.filter@ == self.as_filter(),
    {
        let before = match self.before {
            Some(b) => Filter::BeforeTime(b),
            None => Filter::Empty,
        };
        let after = match self.after {
            Some(a) => Filter::AfterTime(a),
            None => Filter::Empty,
        };
        let time = Filter::and(before, after);
        let none_given = self.sender.is_none() && self.subject.is_none() && self.body.is_none()
            && self.any.is_none();
        let sender = match self.sender {
            Some(p) => Some(Filter::MatchSender(p)),
            None => None,
        };
        let subject = match self.subject {
            Some(p) => Some(Filter::MatchSubject(p)),
            None => None,
        };
        let body = match self.body {
            Some(p) => Some(Filter::MatchBody(p)),
            None => None,
        };
        let any = match self.any {
            Some(p) => {
                let second = p.duplicate();
                let third = p.duplicate();
                Some(
                    Filter::or(
                        Filter::or(Filter::MatchSender(p), Filter::MatchSubject(second)),
                        Filter::MatchBody(third),
                    ),
                )
            },
            None => None,
        };
        let content = if self.all {
            Filter::and(
                Filter::and(
                    Filter::and(present_or_empty(sender), present_or_empty(subject)),
                    present_or_empty(body),
                ),
                present_or_empty(any),
            )
        } else if none_given {
            Filter::Empty
        } else {
            Filter::or(
                Filter::or(
                    Filter::or(present_or_never(sender), present_or_never(subject)),
                    present_or_never(body),
                ),
                present_or_never(any),
            )
        };
        RunConfig {
            emails: self.emails,
            max_volume: self.max_volume,
            cooldown_ms: self.cooldown_ms,
            retries: self.retries,
            reconnect_ms: if self.no_reconnect {
                None
            } else {
                Some(self.reconnect_ms)
            },
            filter: Filter::and(time, content),
        }
    }
}

fn is_false(verdict: Option<bool>) -> (r: bool)
    ensures
        r == (verdict == Some(false)),
{
    match verdict {
        Some(b) => !b,
        None => false,
    }
}

fn is_true(verdict: Option<bool>) -> (r: bool)
    ensures
        r == (verdict == Some(true)),
{
    match verdict {
        Some(b) => b,
        None => false,
    }
}

fn present_or_empty(found: Option<Filter>) -> (r: Filter)
    ensures
        r@ == or_else(
            match found {
                Some(f) => Some(f@),
                None => None,
            },
            FilterView::Empty,
        ),
{
    match found {
        Some(f) => f,
        None => Filter::Empty,
    }
}

fn present_or_never(found: Option<Filter>) -> (r: Filter)
    ensures
        r@ == or_else(
            match found {
                Some(f) => Some(f@),
                None => None,
            },
            never(),
        ),
{
    match found {
        Some(f) => f,
        None => Filter::not(Filter::Empty),
    }
}

/// The filter made of the options lets through exactly the records that the
/// options let through.
pub proof fn as_filter_agrees(args: Args, record: RecordView)
    ensures
        args.as_filter().holds(record) == args.accepts(record),
{
    reveal_with_fuel(FilterView::holds, 6);
    let v = args.verdicts(record);
    let m = args.matchers();
    assert(m[0] is None <==> v[0] is None);
    assert(m[1] is None <==> v[1] is None);
    assert(m[2] is None <==> v[2] is None);
    assert(m[3] is None <==> v[3] is None);
    assert(m[0] matches Some(f) ==> v[0] == Some(f.holds(record)));
    assert(m[1] matches Some(f) ==> v[1] == Some(f.holds(record)));
    assert(m[2] matches Some(f) ==> v[2] == Some(f.holds(record)));
    assert(m[3] matches Some(f) ==> v[3] == Some(f.holds(record)));
    if args.all {
        assert(v[0] != Some(false) && v[1] != Some(false) && v[2] != Some(false) && v[3] != Some(
            false,
        ) <==> args.in_content(record));
    } else {
        if args.in_content(record) {
            if forall|i: int| 0 <= i < 4 ==> v[i] is None {
                assert(v[0] is None && v[1] is None && v[2] is None && v[3] is None);
            } else {
                let i = choose|i: int| 0 <= i < 4 && v[i] == Some(true);
                assert(i == 0 || i == 1 || i == 2 || i == 3);
            }
        } else {
            assert(!(v[0] == Some(true)) && !(v[1] == Some(true)) && !(v[2] == Some(true)) && !(v[3]
                == Some(true)));
        }
    }
}

} // verus!
