//! The reader of filter texts.

use crate::filter::{Filter, FilterView};
use crate::pattern::{regex_accepts, Pattern};
use crate::syntax::{
    advanced, atom, conjunction, conjunction_rest, date_predicate, disjunction, disjunction_rest,
    fault, fence, first_at, first_at_is_first, has_at, pattern_predicate, predicate, quoted,
    spelling, Bound, Expression, ExpressionView, Fault, Field, ParseError, ParseErrorKind,
};
use crate::timestamp::{date_literal, Timestamp};
use vstd::prelude::*;
use vstd::string::*;

verus! {

/// `r` is what reading gave where `expected` was to be read.
pub open spec fn reads_as(
    r: Result<(Expression, usize), ParseError>,
    expected: Result<(ExpressionView, int), Fault>,
) -> bool {
    match r {
        Ok((e, next)) => expected == Ok::<(ExpressionView, int), Fault>((e@, next as int)),
        Err(err) => expected == Err::<(ExpressionView, int), Fault>(err@),
    }
}

/// A filter text, and its characters one by one.
struct Source<'a> {
    text: &'a str,
    chars: Vec<char>,
}

impl<'a> Source<'a> {
    /// The characters are those of the text.
    spec fn well_formed(&self) -> bool {
        self.chars@ == self.text@ && self.text@.len() <= usize::MAX
    }

    /// Takes the text apart into its characters.
    fn new(text: &'a str) -> (r: Source<'a>)
        ensures
            r.well_formed(),
            r.text@ == text@,
    {
        let n = text.unicode_len();
        let mut chars: Vec<char> = Vec::new();
        let mut i: usize = 0;
        while i < n
            invariant
                i <= n,
                n == text@.len(),
                chars@ == text@.subrange(0, i as int),
            decreases n - i,
        {
            chars.push(text.get_char(i));
            i += 1;
            assert(chars@ =~= text@.subrange(0, i as int));
        }
        assert(text@.subrange(0, n as int) =~= text@);
        Source { text, chars }
    }

    /// The fault of `kind` for the characters from `from` up to `to`.
    fn mistake(&self, kind: ParseErrorKind, from: usize, to: usize) -> (r: ParseError)
        requires
            self.well_formed(),
            from <= to <= self.text@.len(),
        ensures
            r@ == fault(self.text@, kind, from as int, to as int),
    {
        ParseError {
            kind,
            position: from,
            fragment: String::from_str(self.text.substring_char(from, to)),
        }
    }

    /// Whether the character at `at` is `c`.
    fn is_at(&self, at: usize, c: char) -> (r: bool)
        requires
            self.well_formed(),
        ensures
            r == (at < self.text@.len() && self.text@[at as int] == c),
    {
        at < self.chars.len() && self.chars[at] == c
    }

    /// Whether `word` stands at `at`.
    fn stands_at(&self, at: usize, word: &Vec<char>) -> (r: bool)
        requires
            self.well_formed(),
        ensures
            r == has_at(self.text@, at as int, word@),
    {
        if word.len() > self.chars.len() || at > self.chars.len() - word.len() {
            return false;
        }
        let mut k: usize = 0;
        while k < word.len()
            invariant
                self.well_formed(),
                k <= word.len(),
                at + word.len() <= self.chars.len(),
                forall|j: int| 0 <= j < k ==> self.text@[at + j] == word@[j],
            decreases word.len() - k,
        {
            if self.chars[at + k] != word[k] {
                assert(self.text@.subrange(at as int, at + word.len())[k as int] != word@[k as int]);
                return false;
            }
            k += 1;
        }
        assert(self.text@.subrange(at as int, at + word.len()) =~= word@);
        true
    }

    /// Whether the name `word` stands at `at`.
    fn names(&self, at: usize, word: &str) -> (r: bool)
        requires
            self.well_formed(),
        ensures
            r == has_at(self.text@, at as int, word@),
    {
        let letters = Source::new(word);
        self.stands_at(at, &letters.chars)
    }

    /// The first place at or after `from` where `word` stands.
    fn find(&self, from: usize, word: &Vec<char>) -> (r: Option<usize>)
        requires
            self.well_formed(),
        ensures
            match r {
                Some(at) => first_at(self.text@, from as int, word@) == Some(at as int),
                None => first_at(self.text@, from as int, word@) is None,
            },
    {
        if word.len() > self.chars.len() {
            return None;
        }
        let last = self.chars.len() - word.len();
        let mut i: usize = from;
        while i <= last
            invariant
                self.well_formed(),
                from <= i,
                last + word.len() == self.chars.len(),
                first_at(self.text@, from as int, word@) == first_at(self.text@, i as int, word@),
            decreases last + 1 - i,
        {
            if self.stands_at(i, word) {
                return Some(i);
            }
            assert(word@.len() > 0) by {
                if word@.len() == 0 {
                    assert(self.text@.subrange(i as int, i as int) =~= word@);
                }
            }
            i += 1;
        }
        None
    }

    /// The end of the run of `#` that starts at `at`.
    fn fence_end(&self, at: usize) -> (r: usize)
        requires
            self.well_formed(),
            at <= self.text@.len(),
        ensures
            r == at + fence(self.text@, at as int),
            at <= r <= self.text@.len(),
    {
        let mut i: usize = at;
        while i < self.chars.len() && self.chars[i] == '#'
            invariant
                self.well_formed(),
                at <= i <= self.chars.len(),
                at + fence(self.text@, at as int) == i + fence(self.text@, i as int),
            decreases self.chars.len() - i,
        {
            i += 1;
        }
        i
    }

    /// Reads the quoted literal that opens at `at`: where its text starts
    /// and ends.
    fn quoted(&self, at: usize) -> (r: Result<(usize, usize), ParseError>)
        requires
            self.well_formed(),
            at <= self.text@.len(),
        ensures
            match r {
                Ok((start, end)) => quoted(self.text@, at as int) == Ok::<(int, int), Fault>(
                    (start as int, end as int),
                ) && at < start <= end && end + (start - at) < self.text@.len(),
                Err(e) => quoted(self.text@, at as int) == Err::<(int, int), Fault>(e@),
            },
    {
        let open = self.fence_end(at);
        if open < self.chars.len() && (self.chars[open] == '\'' || self.chars[open] == '"') {
            let mut closing: Vec<char> = Vec::new();
            let mut k: usize = at;
            while k <= open
                invariant
                    self.well_formed(),
                    at <= k <= open + 1,
                    open < self.chars.len(),
                    closing@ == self.text@.subrange(at as int, k as int),
                decreases open + 1 - k,
            {
                closing.push(self.chars[k]);
                k += 1;
                assert(closing@ =~= self.text@.subrange(at as int, k as int));
            }
            closing.push(')');
            proof {
                first_at_is_first(self.text@, open + 1, closing@);
            }
            match self.find(open + 1, &closing) {
                Some(end) => Ok((open + 1, end)),
                None => Err(
                    self.mistake(ParseErrorKind::UnterminatedLiteral, at, self.chars.len()),
                ),
            }
        } else {
            Err(self.mistake(ParseErrorKind::ExpectedQuote, open, self.chars.len()))
        }
    }

    /// Reads a quoted pattern in parentheses, from the `(` at `at`: the
    /// pattern, the place where it starts, and the place behind the `)`.
    fn parenthesized_regex(&self, at: usize) -> (r: Result<(String, usize, usize), ParseError>)
        requires
            self.well_formed(),
            at <= self.text@.len(),
        ensures
            match r {
                Ok((pattern, start, next)) => {
                    &&& at < self.text@.len() && self.text@[at as int] == '('
                    &&& quoted(self.text@, at + 1) matches Ok((s, e))
                    &&& s == start && pattern@ == self.text@.subrange(s, e) && next == e + (s - at)
                    &&& advanced(self.text@, at as int, next as int)
                },
                Err(e) => if at < self.text@.len() && self.text@[at as int] == '(' {
                    quoted(self.text@, at + 1) == Err::<(int, int), Fault>(e@)
                } else {
                    e@ == fault(
                        self.text@,
                        ParseErrorKind::ExpectedOpenParen,
                        at as int,
                        self.text@.len() as int,
                    )
                },
            },
    {
        if !self.is_at(at, '(') {
            return Err(self.mistake(ParseErrorKind::ExpectedOpenParen, at, self.chars.len()));
        }
        match self.quoted(at + 1) {
            Ok((start, end)) => {
                let pattern = String::from_str(self.text.substring_char(start, end));
                Ok((pattern, start, end + (start - at)))
            },
            Err(e) => Err(e),
        }
    }

    /// Reads the rest of a pattern predicate, from behind its name.
    fn pattern_predicate(&self, field: Field, at: usize) -> (r: Result<
        (Expression, usize),
        ParseError,
    >)
        requires
            self.well_formed(),
            at <= self.text@.len(),
        ensures
            reads_as(r, pattern_predicate(self.text@, field, at as int)),
            r matches Ok((_, next)) ==> advanced(self.text@, at as int, next as int),
    {
        match self.parenthesized_regex(at) {
            Ok((pattern, start, next)) => Ok((Expression::Match { field, pattern, at: start }, next)),
            Err(e) => Err(e),
        }
    }

    /// Reads the predicate on the sender, from behind its name.
    fn sender(&self, at: usize) -> (r: Result<(Expression, usize), ParseError>)
        requires
            self.well_formed(),
            at <= self.text@.len(),
        ensures
            reads_as(r, pattern_predicate(self.text@, Field::Sender, at as int)),
            r matches Ok((_, next)) ==> advanced(self.text@, at as int, next as int),
    {
        self.pattern_predicate(Field::Sender, at)
    }

    /// Reads the predicate on the subject, from behind its name.
    fn subject(&self, at: usize) -> (r: Result<(Expression, usize), ParseError>)
        requires
            self.well_formed(),
            at <= self.text@.len(),
        ensures
            reads_as(r, pattern_predicate(self.text@, Field::Subject, at as int)),
            r matches Ok((_, next)) ==> advanced(self.text@, at as int, next as int),
    {
        self.pattern_predicate(Field::Subject, at)
    }

    /// Reads the predicate on the body, from behind its name.
    fn body(&self, at: usize) -> (r: Result<(Expression, usize), ParseError>)
        requires
            self.well_formed(),
            at <= self.text@.len(),
        ensures
            reads_as(r, pattern_predicate(self.text@, Field::Body, at as int)),
            r matches Ok((_, next)) ==> advanced(self.text@, at as int, next as int),
    {
        self.pattern_predicate(Field::Body, at)
    }

    /// Reads the rest of a date predicate, from behind its name.
    fn date_predicate(&self, bound: Bound, at: usize) -> (r: Result<
        (Expression, usize),
        ParseError,
    >)
        requires
            self.well_formed(),
            at <= self.text@.len(),
        ensures
            reads_as(r, date_predicate(self.text@, bound, at as int)),
            r matches Ok((_, next)) ==> advanced(self.text@, at as int, next as int),
    {
        if !self.is_at(at, '(') {
            return Err(self.mistake(ParseErrorKind::ExpectedOpenParen, at, self.chars.len()));
        }
        let mut closing: Vec<char> = Vec::new();
        closing.push(')');
        assert(closing@ =~= seq![')']);
        proof {
            first_at_is_first(self.text@, at + 1, closing@);
        }
        match self.find(at + 1, &closing) {
            Some(end) => {
                let literal = String::from_str(self.text.substring_char(at + 1, end));
                Ok((Expression::Date { bound, literal, at: at + 1 }, end + 1))
            },
            None => Err(self.mistake(ParseErrorKind::UnterminatedDate, at + 1, self.chars.len())),
        }
    }

    /// Reads the date predicate for the upper bound, from behind its name.
    fn before(&self, at: usize) -> (r: Result<(Expression, usize), ParseError>)
        requires
            self.well_formed(),
            at <= self.text@.len(),
        ensures
            reads_as(r, date_predicate(self.text@, Bound::Before, at as int)),
            r matches Ok((_, next)) ==> advanced(self.text@, at as int, next as int),
    {
        self.date_predicate(Bound::Before, at)
    }

    /// Reads the date predicate for the lower bound, from behind its name.
    fn after(&self, at: usize) -> (r: Result<(Expression, usize), ParseError>)
        requires
            self.well_formed(),
            at <= self.text@.len(),
        ensures
            reads_as(r, date_predicate(self.text@, Bound::After, at as int)),
            r matches Ok((_, next)) ==> advanced(self.text@, at as int, next as int),
    {
        self.date_predicate(Bound::After, at)
    }

    /// Reads the predicate at `at`.
    fn predicate(&self, at: usize) -> (r: Result<(Expression, usize), ParseError>)
        requires
            self.well_formed(),
            at <= self.text@.len(),
        ensures
            reads_as(r, predicate(self.text@, at as int)),
            r matches Ok((_, next)) ==> advanced(self.text@, at as int, next as int),
    {
        if self.names(at, "sender") {
            self.sender(at + "sender".unicode_len())
        } else if self.names(at, "subject") {
            self.subject(at + "subject".unicode_len())
        } else if self.names(at, "body") {
            self.body(at + "body".unicode_len())
        } else if self.names(at, "before") {
            self.before(at + "before".unicode_len())
        } else if self.names(at, "after") {
            self.after(at + "after".unicode_len())
        } else {
            Err(self.mistake(ParseErrorKind::ExpectedPredicate, at, self.chars.len()))
        }
    }

    /// Reads the operand at `at`.
    fn atom(&self, at: usize) -> (r: Result<(Expression, usize), ParseError>)
        requires
            self.well_formed(),
            at <= self.text@.len(),
        ensures
            reads_as(r, atom(self.text@, at as int)),
            r matches Ok((_, next)) ==> advanced(self.text@, at as int, next as int),
        decreases self.text@.len() - at, 0int,
    {
        if self.is_at(at, '!') {
            match self.atom(at + 1) {
                Ok((e, next)) => Ok((Expression::Not(Box::new(e)), next)),
                Err(e) => Err(e),
            }
        } else if self.is_at(at, '(') {
            match self.filter(at + 1) {
                Ok((e, next)) => {
                    if self.is_at(next, ')') {
                        Ok((e, next + 1))
                    } else {
                        Err(
                            self.mistake(
                                ParseErrorKind::ExpectedCloseParen,
                                next,
                                self.chars.len(),
                            ),
                        )
                    }
                },
                Err(e) => Err(e),
            }
        } else {
            self.predicate(at)
        }
    }

    /// Reads the operands joined by `&` that follow `left`.
    fn conjunction_rest(&self, left: Expression, at: usize) -> (r: Result<
        (Expression, usize),
        ParseError,
    >)
        requires
            self.well_formed(),
            at <= self.text@.len(),
        ensures
            reads_as(r, conjunction_rest(self.text@, left@, at as int)),
            r matches Ok((_, next)) ==> at <= next <= self.text@.len(),
        decreases self.text@.len() - at, 0int,
    {
        if self.is_at(at, '&') {
            match self.atom(at + 1) {
                Ok((right, next)) => self.conjunction_rest(
                    Expression::And(Box::new(left), Box::new(right)),
                    next,
                ),
                Err(e) => Err(e),
            }
        } else {
            Ok((left, at))
        }
    }

    /// Reads the operands joined by `&` at `at`.
    fn conjunction(&self, at: usize) -> (r: Result<(Expression, usize), ParseError>)
        requires
            self.well_formed(),
            at <= self.text@.len(),
        ensures
            reads_as(r, conjunction(self.text@, at as int)),
            r matches Ok((_, next)) ==> advanced(self.text@, at as int, next as int),
        decreases self.text@.len() - at, 1int,
    {
        match self.atom(at) {
            Ok((e, next)) => self.conjunction_rest(e, next),
            Err(e) => Err(e),
        }
    }

    /// Reads the conjunctions joined by `|` that follow `left`.
    fn disjunction_rest(&self, left: Expression, at: usize) -> (r: Result<
        (Expression, usize),
        ParseError,
    >)
        requires
            self.well_formed(),
            at <= self.text@.len(),
        ensures
            reads_as(r, disjunction_rest(self.text@, left@, at as int)),
            r matches Ok((_, next)) ==> at <= next <= self.text@.len(),
        decreases self.text@.len() - at, 0int,
    {
        if self.is_at(at, '|') {
            match self.conjunction(at + 1) {
                Ok((right, next)) => self.disjunction_rest(
                    Expression::Or(Box::new(left), Box::new(right)),
                    next,
                ),
                Err(e) => Err(e),
            }
        } else {
            Ok((left, at))
        }
    }

    /// Reads the filter at `at`.
    fn filter(&self, at: usize) -> (r: Result<(Expression, usize), ParseError>)
        requires
            self.well_formed(),
            at <= self.text@.len(),
        ensures
            reads_as(r, disjunction(self.text@, at as int)),
            r matches Ok((_, next)) ==> advanced(self.text@, at as int, next as int),
        decreases self.text@.len() - at, 2int,
    {
        match self.conjunction(at) {
            Ok((e, next)) => self.disjunction_rest(e, next),
            Err(e) => Err(e),
        }
    }
}

/// Reads a filter text as it is spelled, without looking into its literals.
pub fn read(text: &str) -> (r: Result<Expression, ParseError>)
    ensures
        match r {
            Ok(e) => spelling(text@) == Ok::<ExpressionView, Fault>(e@),
            Err(err) => spelling(text@) == Err::<ExpressionView, Fault>(err@),
        },
{
    let source = Source::new(text);
    match source.filter(0) {
        Ok((e, next)) => {
            if next == source.chars.len() {
                Ok(e)
            } else {
                Err(source.mistake(ParseErrorKind::TrailingInput, next, source.chars.len()))
            }
        },
        Err(err) => Err(err),
    }
}

/// The filter that looks for `pattern` in `field`.
pub open spec fn on_field(field: Field, pattern: Seq<char>) -> FilterView {
    match field {
        Field::Sender => FilterView::MatchSender(pattern),
        Field::Subject => FilterView::MatchSubject(pattern),
        Field::Body => FilterView::MatchBody(pattern),
    }
}

/// The filter that keeps a record on the `bound` side of `moment`.
pub open spec fn on_bound(bound: Bound, moment: Timestamp) -> FilterView {
    match bound {
        Bound::Before => FilterView::BeforeTime(moment),
        Bound::After => FilterView::AfterTime(moment),
    }
}

/// The filter for a pattern literal: the literal must be a regular
/// expression.
pub open spec fn resolved_match(field: Field, pattern: Seq<char>, at: int) -> Result<
    FilterView,
    Fault,
> {
    if regex_accepts(pattern) {
        Ok(on_field(field, pattern))
    } else {
        Err(Fault { kind: ParseErrorKind::InvalidRegex, position: at, fragment: pattern })
    }
}

/// The filter for a date literal: the literal must be a date.
pub open spec fn resolved_date(bound: Bound, literal: Seq<char>, at: int) -> Result<
    FilterView,
    Fault,
> {
    match date_literal(literal) {
        Some(moment) => Ok(on_bound(bound, moment)),
        None => Err(Fault { kind: ParseErrorKind::InvalidDate, position: at, fragment: literal }),
    }
}

/// The filter that an expression denotes, or the fault of its first literal
/// that is none.
pub open spec fn resolved(e: ExpressionView) -> Result<FilterView, Fault>
    decreases e,
{
    match e {
        ExpressionView::Or(a, b) => match resolved(*a) {
            Ok(left) => match resolved(*b) {
                Ok(right) => Ok(FilterView::Or(Box::new(left), Box::new(right))),
                Err(f) => Err(f),
            },
            Err(f) => Err(f),
        },
        ExpressionView::And(a, b) => match resolved(*a) {
            Ok(left) => match resolved(*b) {
                Ok(right) => Ok(FilterView::And(Box::new(left), Box::new(right))),
                Err(f) => Err(f),
            },
            Err(f) => Err(f),
        },
        ExpressionView::Not(a) => match resolved(*a) {
            Ok(inner) => Ok(FilterView::Not(Box::new(inner))),
            Err(f) => Err(f),
        },
        ExpressionView::Match { field, pattern, at } => resolved_match(field, pattern, at),
        ExpressionView::Date { bound, literal, at } => resolved_date(bound, literal, at),
    }
}

/// The filter that `text` denotes: the expression it spells, with its
/// literals resolved.
pub open spec fn parsed(text: Seq<char>) -> Result<FilterView, Fault> {
    match spelling(text) {
        Ok(e) => resolved(e),
        Err(f) => Err(f),
    }
}

/// `r` is the filter or the fault that `expected` says.
pub open spec fn denotes(r: Result<Filter, ParseError>, expected: Result<FilterView, Fault>) -> bool {
    match r {
        Ok(f) => expected == Ok::<FilterView, Fault>(f@),
        Err(err) => expected == Err::<FilterView, Fault>(err@),
    }
}

/// The filter for the pattern literal `pattern`, which starts at `at`, given
/// what compiling it gave.
pub fn match_filter(field: Field, compiled: Option<Pattern>, pattern: String, at: usize) -> (r:
    Result<Filter, ParseError>)
    ensures
        match compiled {
            Some(p) => r matches Ok(f) && f@ == on_field(field, p@),
            None => r matches Err(err) && err@ == (Fault {
                kind: ParseErrorKind::InvalidRegex,
                position: at as int,
                fragment: pattern@,
            }),
        },
{
    match compiled {
        Some(p) => Ok(
            match field {
                Field::Sender => Filter::MatchSender(p),
                Field::Subject => Filter::MatchSubject(p),
                Field::Body => Filter::MatchBody(p),
            },
        ),
        None => Err(ParseError { kind: ParseErrorKind::InvalidRegex, position: at, fragment: pattern }),
    }
}

/// The filter for the date literal `literal`, which starts at `at`, given
/// what reading it as a date gave.
pub fn date_filter(bound: Bound, moment: Option<Timestamp>, literal: String, at: usize) -> (r:
    Result<Filter, ParseError>)
    ensures
        match moment {
            Some(t) => r matches Ok(f) && f@ == on_bound(bound, t),
            None => r matches Err(err) && err@ == (Fault {
                kind: ParseErrorKind::InvalidDate,
                position: at as int,
                fragment: literal@,
            }),
        },
{
    match moment {
        Some(t) => Ok(
            match bound {
                Bound::Before => Filter::BeforeTime(t),
                Bound::After => Filter::AfterTime(t),
            },
        ),
        None => Err(ParseError { kind: ParseErrorKind::InvalidDate, position: at, fragment: literal }),
    }
}

/// Reads a date literal.
pub fn date(input: &str) -> (r: Option<Timestamp>)
    ensures
        r == date_literal(input@),
{
    Timestamp::parse(input)
}

/// Compiles the patterns and reads the dates of an expression. The first
/// literal that is none, from the left, is reported.
pub fn resolve(e: Expression) -> (r: Result<Filter, ParseError>)
    ensures
        denotes(r, resolved(e@)),
    decreases e,
{
    match e {
        Expression::Or(a, b) => {
            let left = resolve(*a)?;
            let right = resolve(*b)?;
            Ok(Filter::or(left, right))
        },
        Expression::And(a, b) => {
            let left = resolve(*a)?;
            let right = resolve(*b)?;
            Ok(Filter::and(left, right))
        },
        Expression::Not(a) => {
            let inner = resolve(*a)?;
            Ok(Filter::not(inner))
        },
        Expression::Match { field, pattern, at } => {
            let compiled = Pattern::new(pattern.as_str());
            match_filter(field, compiled, pattern, at)
        },
        Expression::Date { bound, literal, at } => {
            let moment = date(literal.as_str());
            date_filter(bound, moment, literal, at)
        },
    }
}

/// Reads a filter text. A text that is no filter is rejected with the
/// first fault in its spelling, or else the first literal that is no
/// regular expression or no date.
pub fn parse(text: &str) -> (r: Result<Filter, ParseError>)
    ensures
        denotes(r, parsed(text@)),
{
    match read(text) {
        Ok(e) => resolve(e),
        Err(err) => Err(err),
    }
}

} // verus!
