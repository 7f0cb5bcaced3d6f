//! The filter expression language: the text of a filter and the expression
//! it spells.
//!
//! ```text
//! filter    := or_expr
//! or_expr   := and_expr ( "|" and_expr )*
//! and_expr  := atom ( "&" atom )*
//! atom      := "!" atom | "(" filter ")" | predicate
//! predicate := ( "sender" | "subject" | "body" ) "(" quoted ")"
//!            | ( "before" | "after" ) "(" date ")"
//! quoted    := "#"* quote text "#"* quote
//! ```
//!
//! A quoted literal opens with any number of `#` and a quote, `'` or `"`. It
//! closes at the first place where the same run of `#`, the same quote and
//! the `)` of the predicate follow each other. A date runs up to the next
//! `)`. No blanks are skipped.
//!
//! The definitions of the repetitions go on only where the operand just read
//! took at least one character. `disjunction_advances` and the statements
//! beside it show that every operand does.

use vstd::prelude::*;

verus! {

/// The field of a record that a pattern is matched against.
#[derive(Clone, Copy, Debug, PartialEq, Eq, Structural)]
pub enum Field {
    Sender,
    Subject,
    Body,
}

/// The side of a moment that a record must lie on.
#[derive(Clone, Copy, Debug, PartialEq, Eq, Structural)]
pub enum Bound {
    Before,
    After,
}

/// What is wrong with a filter text.
#[derive(Clone, Copy, Debug, PartialEq, Eq, Structural)]
pub enum ParseErrorKind {
    /// No predicate, `!` or `(` where an operand must stand.
    ExpectedPredicate,
    /// No `(` after the name of a predicate.
    ExpectedOpenParen,
    /// No quote where a quoted literal must open.
    ExpectedQuote,
    /// A quoted literal that is never closed.
    UnterminatedLiteral,
    /// A date that is never closed.
    UnterminatedDate,
    /// No `)` where a parenthesised filter must close.
    ExpectedCloseParen,
    /// Text after the end of the filter.
    TrailingInput,
    /// A quoted literal that is no regular expression.
    InvalidRegex,
    /// A date that is none in the `MM/DD/YY HH:MM` layout.
    InvalidDate,
}

/// A rejected filter text: what is wrong, where, counted in characters from
/// the start of the text, and the offending part of the text.
#[derive(Clone, Debug, PartialEq, Eq)]
pub struct ParseError {
    pub kind: ParseErrorKind,
    pub position: usize,
    pub fragment: String,
}

/// A rejected filter text.
pub struct Fault {
    pub kind: ParseErrorKind,
    pub position: int,
    pub fragment: Seq<char>,
}

impl View for ParseError {
    type V = Fault;

    open spec fn view(&self) -> Fault {
        Fault { kind: self.kind, position: self.position as int, fragment: self.fragment@ }
    }
}

/// A filter as it is spelled: the literals are text, each with the place
/// where it starts.
#[derive(Debug, PartialEq, Eq)]
pub enum Expression {
    Or(Box<Expression>, Box<Expression>),
    And(Box<Expression>, Box<Expression>),
    Not(Box<Expression>),
    Match { field: Field, pattern: String, at: usize },
    Date { bound: Bound, literal: String, at: usize },
}

/// A filter as it is spelled.
pub enum ExpressionView {
    Or(Box<ExpressionView>, Box<ExpressionView>),
    And(Box<ExpressionView>, Box<ExpressionView>),
    Not(Box<ExpressionView>),
    Match { field: Field, pattern: Seq<char>, at: int },
    Date { bound: Bound, literal: Seq<char>, at: int },
}

impl Expression {
    /// The expression with its literals as sequences of characters.
    pub open spec fn spelled(&self) -> ExpressionView
        decreases self,
    {
        match self {
            Expression::Or(a, b) => ExpressionView::Or(
                Box::new(a.spelled()),
                Box::new(b.spelled()),
            ),
            Expression::And(a, b) => ExpressionView::And(
                Box::new(a.spelled()),
                Box::new(b.spelled()),
            ),
            Expression::Not(a) => ExpressionView::Not(Box::new(a.spelled())),
            Expression::Match { field, pattern, at } => ExpressionView::Match {
                field: *field,
                pattern: pattern@,
                at: *at as int,
            },
            Expression::Date { bound, literal, at } => ExpressionView::Date {
                bound: *bound,
                literal: literal@,
                at: *at as int,
            },
        }
    }
}

impl View for Expression {
    type V = ExpressionView;

    open spec fn view(&self) -> ExpressionView {
        self.spelled()
    }
}

/// The fault of `kind` for the part of `text` from `from` up to `to`.
pub open spec fn fault(text: Seq<char>, kind: ParseErrorKind, from: int, to: int) -> Fault {
    Fault { kind, position: from, fragment: text.subrange(from, to) }
}

/// `word` stands in `text` at `at`.
pub open spec fn has_at(text: Seq<char>, at: int, word: Seq<char>) -> bool {
    0 <= at && at + word.len() <= text.len() && text.subrange(at, at + word.len()) == word
}

/// The first place at or after `from` where `word` stands in `text`.
pub open spec fn first_at(text: Seq<char>, from: int, word: Seq<char>) -> Option<int>
    decreases text.len() + 1 - from,
{
    if from < 0 || from + word.len() > text.len() {
        None
    } else if has_at(text, from, word) {
        Some(from)
    } else {
        first_at(text, from + 1, word)
    }
}

/// The length of the run of `#` that starts at `at`.
pub open spec fn fence(text: Seq<char>, at: int) -> int
    decreases text.len() - at,
{
    if 0 <= at < text.len() && text[at] == '#' {
        1 + fence(text, at + 1)
    } else {
        0
    }
}

/// `c` opens and closes a literal.
pub open spec fn is_quote(c: char) -> bool {
    c == '\'' || c == '"'
}

/// The quoted literal that opens at `at`: where its text starts and ends.
/// The closing delimiter and the `)` behind it take as many characters as
/// lie between `at` and the start of the text, and one more.
pub open spec fn quoted(text: Seq<char>, at: int) -> Result<(int, int), Fault> {
    let open = at + fence(text, at);
    if 0 <= open < text.len() && is_quote(text[open]) {
        match first_at(text, open + 1, text.subrange(at, open + 1).push(')')) {
            Some(end) => Ok((open + 1, end)),
            None => Err(fault(text, ParseErrorKind::UnterminatedLiteral, at, text.len() as int)),
        }
    } else {
        Err(fault(text, ParseErrorKind::ExpectedQuote, open, text.len() as int))
    }
}

/// `first_at` finds a place where the word stands, and none lies before it.
pub proof fn first_at_is_first(text: Seq<char>, from: int, word: Seq<char>)
    requires
        0 <= from,
    ensures
        match first_at(text, from, word) {
            Some(at) => from <= at && has_at(text, at, word) && forall|i: int|
                from <= i < at ==> !has_at(text, i, word),
            None => forall|i: int| from <= i ==> !has_at(text, i, word),
        },
    decreases text.len() + 1 - from,
{
    if from + word.len() <= text.len() && !has_at(text, from, word) {
        first_at_is_first(text, from + 1, word);
    }
}

/// A run of `#` ends inside the text or at its end, and holds nothing else.
pub proof fn fence_is_the_run(text: Seq<char>, at: int)
    requires
        0 <= at <= text.len(),
    ensures
        0 <= fence(text, at) <= text.len() - at,
        forall|i: int| at <= i < at + fence(text, at) ==> text[i] == '#',
        at + fence(text, at) < text.len() ==> text[at + fence(text, at)] != '#',
    decreases text.len() - at,
{
    if at < text.len() && text[at] == '#' {
        fence_is_the_run(text, at + 1);
    }
}

/// Reading from `at` up to `next` took at least one character and stayed
/// inside the text.
pub open spec fn advanced(text: Seq<char>, at: int, next: int) -> bool {
    at < next <= text.len()
}

/// The rest of a pattern predicate, from behind its name: a quoted literal
/// in parentheses.
pub open spec fn pattern_predicate(text: Seq<char>, field: Field, at: int) -> Result<
    (ExpressionView, int),
    Fault,
> {
    if 0 <= at < text.len() && text[at] == '(' {
        match quoted(text, at + 1) {
            Ok((start, end)) => Ok(
                (
                    ExpressionView::Match { field, pattern: text.subrange(start, end), at: start },
                    end + (start - at),
                ),
            ),
            Err(f) => Err(f),
        }
    } else {
        Err(fault(text, ParseErrorKind::ExpectedOpenParen, at, text.len() as int))
    }
}

/// The rest of a date predicate, from behind its name: a date in
/// parentheses.
pub open spec fn date_predicate(text: Seq<char>, bound: Bound, at: int) -> Result<
    (ExpressionView, int),
    Fault,
> {
    if 0 <= at < text.len() && text[at] == '(' {
        match first_at(text, at + 1, seq![')']) {
            Some(end) => Ok(
                (
                    ExpressionView::Date {
                        bound,
                        literal: text.subrange(at + 1, end),
                        at: at + 1,
                    },
                    end + 1,
                ),
            ),
            None => Err(
                fault(text, ParseErrorKind::UnterminatedDate, at + 1, text.len() as int),
            ),
        }
    } else {
        Err(fault(text, ParseErrorKind::ExpectedOpenParen, at, text.len() as int))
    }
}

/// The predicate at `at`.
pub open spec fn predicate(text: Seq<char>, at: int) -> Result<(ExpressionView, int), Fault> {
    if has_at(text, at, "sender"@) {
        pattern_predicate(text, Field::Sender, at + "sender"@.len())
    } else if has_at(text, at, "subject"@) {
        pattern_predicate(text, Field::Subject, at + "subject"@.len())
    } else if has_at(text, at, "body"@) {
        pattern_predicate(text, Field::Body, at + "body"@.len())
    } else if has_at(text, at, "before"@) {
        date_predicate(text, Bound::Before, at + "before"@.len())
    } else if has_at(text, at, "after"@) {
        date_predicate(text, Bound::After, at + "after"@.len())
    } else {
        Err(fault(text, ParseErrorKind::ExpectedPredicate, at, text.len() as int))
    }
}

/// The operand at `at`: a negation, a filter in parentheses or a predicate.
pub open spec fn atom(text: Seq<char>, at: int) -> Result<(ExpressionView, int), Fault>
    decreases text.len() - at, 0int,
{
    if 0 <= at < text.len() && text[at] == '!' {
        match atom(text, at + 1) {
            Ok((e, next)) => Ok((ExpressionView::Not(Box::new(e)), next)),
            Err(f) => Err(f),
        }
    } else if 0 <= at < text.len() && text[at] == '(' {
        match disjunction(text, at + 1) {
            Ok((e, next)) => if 0 <= next < text.len() && text[next] == ')' {
                Ok((e, next + 1))
            } else {
                Err(fault(text, ParseErrorKind::ExpectedCloseParen, next, text.len() as int))
            },
            Err(f) => Err(f),
        }
    } else {
        predicate(text, at)
    }
}

/// The operands joined by `&` that follow `left`, which ends at `at`. They
/// group to the left.
pub open spec fn conjunction_rest(text: Seq<char>, left: ExpressionView, at: int) -> Result<
    (ExpressionView, int),
    Fault,
>
    decreases text.len() - at, 0int,
{
    if 0 <= at < text.len() && text[at] == '&' {
        match atom(text, at + 1) {
            Ok((right, next)) => {
                let both = ExpressionView::And(Box::new(left), Box::new(right));
                if advanced(text, at, next) {
                    conjunction_rest(text, both, next)
                } else {
                    Ok((both, next))
                }
            },
            Err(f) => Err(f),
        }
    } else {
        Ok((left, at))
    }
}

/// The operands joined by `&` at `at`.
pub open spec fn conjunction(text: Seq<char>, at: int) -> Result<(ExpressionView, int), Fault>
    decreases text.len() - at, 1int,
{
    match atom(text, at) {
        Ok((e, next)) => if advanced(text, at, next) {
            conjunction_rest(text, e, next)
        } else {
            Ok((e, next))
        },
        Err(f) => Err(f),
    }
}

/// The conjunctions joined by `|` that follow `left`, which ends at `at`.
/// They group to the left.
pub open spec fn disjunction_rest(text: Seq<char>, left: ExpressionView, at: int) -> Result<
    (ExpressionView, int),
    Fault,
>
    decreases text.len() - at, 0int,
{
    if 0 <= at < text.len() && text[at] == '|' {
        match conjunction(text, at + 1) {
            Ok((right, next)) => {
                let either = ExpressionView::Or(Box::new(left), Box::new(right));
                if advanced(text, at, next) {
                    disjunction_rest(text, either, next)
                } else {
                    Ok((either, next))
                }
            },
            Err(f) => Err(f),
        }
    } else {
        Ok((left, at))
    }
}

/// The conjunctions joined by `|` at `at`: a filter.
pub open spec fn disjunction(text: Seq<char>, at: int) -> Result<(ExpressionView, int), Fault>
    decreases text.len() - at, 2int,
{
    match conjunction(text, at) {
        Ok((e, next)) => if advanced(text, at, next) {
            disjunction_rest(text, e, next)
        } else {
            Ok((e, next))
        },
        Err(f) => Err(f),
    }
}

/// The expression that the whole of `text` spells.
pub open spec fn spelling(text: Seq<char>) -> Result<ExpressionView, Fault> {
    match disjunction(text, 0) {
        Ok((e, next)) => if next == text.len() {
            Ok(e)
        } else {
            Err(fault(text, ParseErrorKind::TrailingInput, next, text.len() as int))
        },
        Err(f) => Err(f),
    }
}

/// A predicate ends behind the place where it starts, inside the text.
pub proof fn predicate_advances(text: Seq<char>, at: int)
    requires
        0 <= at <= text.len(),
    ensures
        predicate(text, at) matches Ok((_, next)) ==> advanced(text, at, next),
{
    let name = if has_at(text, at, "sender"@) {
        "sender"@
    } else if has_at(text, at, "subject"@) {
        "subject"@
    } else if has_at(text, at, "body"@) {
        "body"@
    } else if has_at(text, at, "before"@) {
        "before"@
    } else {
        "after"@
    };
    let open = at + name.len();
    if has_at(text, at, name) && open < text.len() && text[open] == '(' {
        fence_is_the_run(text, open + 1);
        let quote = open + 1 + fence(text, open + 1);
        if quote < text.len() {
            first_at_is_first(text, quote + 1, text.subrange(open + 1, quote + 1).push(')'));
        }
        first_at_is_first(text, open + 1, seq![')']);
    }
}

/// An operand ends behind the place where it starts, inside the text.
pub proof fn atom_advances(text: Seq<char>, at: int)
    requires
        0 <= at <= text.len(),
    ensures
        atom(text, at) matches Ok((_, next)) ==> advanced(text, at, next),
    decreases text.len() - at, 0int,
{
    if at < text.len() && text[at] == '!' {
        atom_advances(text, at + 1);
    } else if at < text.len() && text[at] == '(' {
        disjunction_advances(text, at + 1);
    } else {
        predicate_advances(text, at);
    }
}

/// What follows an operand ends at or behind the end of the operand, inside
/// the text.
pub proof fn conjunction_rest_stays(text: Seq<char>, left: ExpressionView, at: int)
    requires
        0 <= at <= text.len(),
    ensures
        conjunction_rest(text, left, at) matches Ok((_, next)) ==> at <= next <= text.len(),
    decreases text.len() - at, 0int,
{
    if at < text.len() && text[at] == '&' {
        atom_advances(text, at + 1);
        if let Ok((right, next)) = atom(text, at + 1) {
            conjunction_rest_stays(
                text,
                ExpressionView::And(Box::new(left), Box::new(right)),
                next,
            );
        }
    }
}

/// A conjunction ends behind the place where it starts, inside the text.
pub proof fn conjunction_advances(text: Seq<char>, at: int)
    requires
        0 <= at <= text.len(),
    ensures
        conjunction(text, at) matches Ok((_, next)) ==> advanced(text, at, next),
    decreases text.len() - at, 1int,
{
    atom_advances(text, at);
    if let Ok((e, next)) = atom(text, at) {
        conjunction_rest_stays(text, e, next);
    }
}

/// What follows a conjunction ends at or behind the end of the conjunction,
/// inside the text.
pub proof fn disjunction_rest_stays(text: Seq<char>, left: ExpressionView, at: int)
    requires
        0 <= at <= text.len(),
    ensures
        disjunction_rest(text, left, at) matches Ok((_, next)) ==> at <= next <= text.len(),
    decreases text.len() - at, 0int,
{
    if at < text.len() && text[at] == '|' {
        conjunction_advances(text, at + 1);
        if let Ok((right, next)) = conjunction(text, at + 1) {
            disjunction_rest_stays(
                text,
                ExpressionView::Or(Box::new(left), Box::new(right)),
                next,
            );
        }
    }
}

/// A filter ends behind the place where it starts, inside the text: every
/// filter that is read takes up at least one character.
pub proof fn disjunction_advances(text: Seq<char>, at: int)
    requires
        0 <= at <= text.len(),
    ensures
        disjunction(text, at) matches Ok((_, next)) ==> advanced(text, at, next),
    decreases text.len() - at, 2int,
{
    conjunction_advances(text, at);
    if let Ok((e, next)) = conjunction(text, at) {
        disjunction_rest_stays(text, e, next);
    }
}

} // verus!
