//! Regular-expression patterns, compiled by the `regex` crate.

use regex::Regex;
use vstd::prelude::*;

verus! {

/// `regex::Regex`, a compiled regular expression. Nothing inside it is
/// visible here.
#[verifier::external_type_specification]
#[verifier::external_body]
pub struct ExRegex(regex::Regex);

/// `regex::Error`, the reason why a text was not compiled. Nothing inside it
/// is visible here.
#[verifier::external_type_specification]
#[verifier::external_body]
pub struct ExRegexError(regex::Error);

/// The text that `Regex::as_str` returns: the pattern the expression was
/// compiled from.
pub uninterp spec fn regex_source(re: Regex) -> Seq<char>;

/// Whether `Regex::new` accepts the pattern text: it is a regular expression
/// in the syntax of the `regex` crate, and small enough for the size limit
/// that `Regex::new` sets.
pub uninterp spec fn regex_accepts(source: Seq<char>) -> bool;

/// Whether `Regex::is_match` finds a match anywhere in `haystack`, for the
/// expression that `Regex::new` compiles from `source`.
pub uninterp spec fn regex_finds(source: Seq<char>, haystack: Seq<char>) -> bool;

/// `Regex::new` succeeds exactly on the pattern texts it accepts, and the
/// expression it returns reports the text it was given as its source.
pub assume_specification[ Regex::new ](re: &str) -> (r: Result<Regex, regex::Error>)
    ensures
        r is Ok <==> regex_accepts(re@),
        r matches Ok(compiled) ==> regex_source(compiled) == re@,
;

/// `Regex::as_str` returns the pattern text the expression was compiled from.
pub assume_specification<'a>[ Regex::as_str ](re: &'a Regex) -> (s: &'a str)
    ensures
        s@ == regex_source(*re),
;

/// `Regex::clone` returns the same expression.
pub assume_specification[ <Regex as Clone>::clone ](re: &Regex) -> (r: Regex)
    ensures
        r == *re,
;

/// A compiled pattern. Its view is the pattern text.
///
/// Every value holds an expression built by `Regex::new` with the default
/// options: `Pattern::new` is the only way to make one from text.
#[derive(Debug)]
pub struct Pattern {
    regex: Regex,
}

impl View for Pattern {
    type V = Seq<char>;

    closed spec fn view(&self) -> Seq<char> {
        regex_source(self.regex)
    }
}

impl Pattern {
    /// Compiles `source`, or returns `None` where the text is no valid
    /// pattern.
    pub fn new(source: &str) -> (r: Option<Pattern>)
        ensures
            r is Some <==> regex_accepts(source@),
            r matches Some(p) ==> p@ == source@,
    {
        match Regex::new(source) {
            Ok(regex) => Some(Pattern { regex }),
            Err(_) => None,
        }
    }

    /// The pattern text.
    pub fn as_str(&self) -> (s: &str)
        ensures
            s@ == self@,
    {
        self.regex.as_str()
    }

    /// A second handle on the same compiled pattern.
    pub fn duplicate(&self) -> (r: Pattern)
        ensures
            r@ == self@,
    {
        Pattern { regex: self.regex.clone() }
    }

    /// `Regex::is_match` on the held expression: whether the pattern matches
    /// anywhere in `haystack`. For an expression compiled by `Regex::new`
    /// this depends on the pattern text and the haystack alone.
    #[verifier::external_body]
    pub(crate) fn found_in(&self, haystack: &str) -> (r: bool)
        ensures
            r == regex_finds(self@, haystack@),
    {
        self.regex.is_match(haystack)
    }
}

} // verus!
