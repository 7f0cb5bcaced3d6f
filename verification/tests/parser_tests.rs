use space_email_scraper::filter::Filter;
use space_email_scraper::parser::{date, date_filter, match_filter, parse, read, resolve};
use space_email_scraper::pattern::Pattern;
use space_email_scraper::record::Record;
use space_email_scraper::syntax::{Bound, Expression, Field, ParseError, ParseErrorKind};
use space_email_scraper::timestamp::Timestamp;

fn err(text: &str) -> ParseError {
    parse(text).unwrap_err()
}

fn fault(kind: ParseErrorKind, position: usize, fragment: &str) -> ParseError {
    ParseError { kind, position, fragment: fragment.to_string() }
}

fn pattern_leaf(field: Field, pattern: &str, at: usize) -> Expression {
    Expression::Match { field, pattern: pattern.to_string(), at }
}

fn email(sender: &str, subject: &str, body: &str) -> Record {
    Record {
        sender: sender.to_string(),
        subject: subject.to_string(),
        body: body.to_string(),
        timestamp: Timestamp { seconds: 0, nanos: 0 },
    }
}

#[test]
fn parses_sender_predicate() {
    match parse("sender('a.*b')").unwrap() {
        Filter::MatchSender(p) => assert_eq!(p.as_str(), "a.*b"),
        other => panic!("unexpected filter {:?}", other),
    }
}

#[test]
fn parses_conjunction_of_two_predicates() {
    match parse("sender('a')&subject(\"b\")").unwrap() {
        Filter::And(left, right) => {
            match *left {
                Filter::MatchSender(p) => assert_eq!(p.as_str(), "a"),
                other => panic!("unexpected left operand {:?}", other),
            }
            match *right {
                Filter::MatchSubject(p) => assert_eq!(p.as_str(), "b"),
                other => panic!("unexpected right operand {:?}", other),
            }
        }
        other => panic!("unexpected filter {:?}", other),
    }
}

#[test]
fn unterminated_literal_is_an_error() {
    assert_eq!(err("sender('abc"), fault(ParseErrorKind::UnterminatedLiteral, 7, "'abc"));
    assert_eq!(err("sender('abc'"), fault(ParseErrorKind::UnterminatedLiteral, 7, "'abc'"));
    assert_eq!(err("sender(\"abc')"), fault(ParseErrorKind::UnterminatedLiteral, 7, "\"abc')"));
    assert_eq!(err("body(#'abc')"), fault(ParseErrorKind::UnterminatedLiteral, 5, "#'abc')"));
}

#[test]
fn parses_each_field() {
    assert!(matches!(parse("sender('x')").unwrap(), Filter::MatchSender(_)));
    assert!(matches!(parse("subject('x')").unwrap(), Filter::MatchSubject(_)));
    assert!(matches!(parse("body('x')").unwrap(), Filter::MatchBody(_)));
}

#[test]
fn reads_the_spelling_with_positions() {
    assert_eq!(read("sender('a.*b')"), Ok(pattern_leaf(Field::Sender, "a.*b", 8)));
    assert_eq!(
        read("sender('a')&subject(\"b\")"),
        Ok(Expression::And(
            Box::new(pattern_leaf(Field::Sender, "a", 8)),
            Box::new(pattern_leaf(Field::Subject, "b", 21)),
        ))
    );
    assert_eq!(
        read("before(01/31/24 13:45)"),
        Ok(Expression::Date { bound: Bound::Before, literal: "01/31/24 13:45".to_string(), at: 7 })
    );
    assert_eq!(
        read("after()"),
        Ok(Expression::Date { bound: Bound::After, literal: String::new(), at: 6 })
    );
}

#[test]
fn and_binds_tighter_than_or() {
    assert_eq!(
        read("sender('a')|subject('b')&body('c')"),
        Ok(Expression::Or(
            Box::new(pattern_leaf(Field::Sender, "a", 8)),
            Box::new(Expression::And(
                Box::new(pattern_leaf(Field::Subject, "b", 21)),
                Box::new(pattern_leaf(Field::Body, "c", 31)),
            )),
        ))
    );
    assert_eq!(
        read("sender('a')&subject('b')|body('c')"),
        Ok(Expression::Or(
            Box::new(Expression::And(
                Box::new(pattern_leaf(Field::Sender, "a", 8)),
                Box::new(pattern_leaf(Field::Subject, "b", 21)),
            )),
            Box::new(pattern_leaf(Field::Body, "c", 31)),
        ))
    );
}

#[test]
fn operators_group_to_the_left() {
    assert_eq!(
        read("body('a')&body('b')&body('c')"),
        Ok(Expression::And(
            Box::new(Expression::And(
                Box::new(pattern_leaf(Field::Body, "a", 6)),
                Box::new(pattern_leaf(Field::Body, "b", 16)),
            )),
            Box::new(pattern_leaf(Field::Body, "c", 26)),
        ))
    );
    assert_eq!(
        read("body('a')|body('b')|body('c')"),
        Ok(Expression::Or(
            Box::new(Expression::Or(
                Box::new(pattern_leaf(Field::Body, "a", 6)),
                Box::new(pattern_leaf(Field::Body, "b", 16)),
            )),
            Box::new(pattern_leaf(Field::Body, "c", 26)),
        ))
    );
}

#[test]
fn parentheses_override_precedence() {
    assert_eq!(
        read("(sender('a')|subject('b'))&body('c')"),
        Ok(Expression::And(
            Box::new(Expression::Or(
                Box::new(pattern_leaf(Field::Sender, "a", 9)),
                Box::new(pattern_leaf(Field::Subject, "b", 22)),
            )),
            Box::new(pattern_leaf(Field::Body, "c", 33)),
        ))
    );
    assert_eq!(read("((body('a')))"), Ok(pattern_leaf(Field::Body, "a", 8)));
}

#[test]
fn negation_applies_to_one_operand() {
    assert_eq!(
        read("!sender('a')&body('b')"),
        Ok(Expression::And(
            Box::new(Expression::Not(Box::new(pattern_leaf(Field::Sender, "a", 9)))),
            Box::new(pattern_leaf(Field::Body, "b", 19)),
        ))
    );
    assert_eq!(
        read("!!body('a')"),
        Ok(Expression::Not(Box::new(Expression::Not(Box::new(pattern_leaf(Field::Body, "a", 8))))))
    );
    assert_eq!(
        read("!(body('a')|body('b'))"),
        Ok(Expression::Not(Box::new(Expression::Or(
            Box::new(pattern_leaf(Field::Body, "a", 8)),
            Box::new(pattern_leaf(Field::Body, "b", 18)),
        ))))
    );
}

#[test]
fn fenced_literal_may_hold_its_quote() {
    assert_eq!(read("body(#'it's')#')"), Ok(pattern_leaf(Field::Body, "it's')", 7)));
    assert_eq!(read("body(##\"a#\")b##\")"), Ok(pattern_leaf(Field::Body, "a#\")b", 8)));
    assert_eq!(read("body('it's')"), Ok(pattern_leaf(Field::Body, "it's", 6)));
    assert_eq!(read("body('a')b')"), Err(fault(ParseErrorKind::TrailingInput, 9, "b')")));
}

#[test]
fn literal_closes_at_the_first_closing_delimiter() {
    assert_eq!(
        read("body('a')|body('b')"),
        Ok(Expression::Or(
            Box::new(pattern_leaf(Field::Body, "a", 6)),
            Box::new(pattern_leaf(Field::Body, "b", 16)),
        ))
    );
    assert_eq!(read("body('')"), Ok(pattern_leaf(Field::Body, "", 6)));
    assert_eq!(read("body(\"'\")"), Ok(pattern_leaf(Field::Body, "'", 6)));
}

#[test]
fn literal_positions_count_characters() {
    assert_eq!(read("body('é')&body('ü')"), Ok(Expression::And(
        Box::new(pattern_leaf(Field::Body, "é", 6)),
        Box::new(pattern_leaf(Field::Body, "ü", 16)),
    )));
    assert_eq!(err("body('é')x"), fault(ParseErrorKind::TrailingInput, 9, "x"));
}

#[test]
fn parses_date_predicates() {
    match parse("before(01/31/24 13:45)").unwrap() {
        Filter::BeforeTime(t) => assert_eq!(t, Timestamp { seconds: 1706708700, nanos: 0 }),
        other => panic!("unexpected filter {:?}", other),
    }
    match parse("after(01/01/70 00:00)").unwrap() {
        Filter::AfterTime(t) => assert_eq!(t, Timestamp { seconds: 0, nanos: 0 }),
        other => panic!("unexpected filter {:?}", other),
    }
}

#[test]
fn missing_operand_is_an_error() {
    assert_eq!(err(""), fault(ParseErrorKind::ExpectedPredicate, 0, ""));
    assert_eq!(err("foo('a')"), fault(ParseErrorKind::ExpectedPredicate, 0, "foo('a')"));
    assert_eq!(err("sender('a')&"), fault(ParseErrorKind::ExpectedPredicate, 12, ""));
    assert_eq!(err("sender('a')|!"), fault(ParseErrorKind::ExpectedPredicate, 13, ""));
    assert_eq!(err("()"), fault(ParseErrorKind::ExpectedPredicate, 1, ")"));
    assert_eq!(err(" sender('a')"), fault(ParseErrorKind::ExpectedPredicate, 0, " sender('a')"));
    assert_eq!(err("Sender('a')"), fault(ParseErrorKind::ExpectedPredicate, 0, "Sender('a')"));
}

#[test]
fn missing_open_paren_is_an_error() {
    assert_eq!(err("sender"), fault(ParseErrorKind::ExpectedOpenParen, 6, ""));
    assert_eq!(err("subject 'a'"), fault(ParseErrorKind::ExpectedOpenParen, 7, " 'a'"));
    assert_eq!(err("before"), fault(ParseErrorKind::ExpectedOpenParen, 6, ""));
    assert_eq!(err("after[x]"), fault(ParseErrorKind::ExpectedOpenParen, 5, "[x]"));
}

#[test]
fn missing_quote_is_an_error() {
    assert_eq!(err("sender(abc)"), fault(ParseErrorKind::ExpectedQuote, 7, "abc)"));
    assert_eq!(err("sender(##abc)"), fault(ParseErrorKind::ExpectedQuote, 9, "abc)"));
    assert_eq!(err("sender("), fault(ParseErrorKind::ExpectedQuote, 7, ""));
    assert_eq!(err("sender(#"), fault(ParseErrorKind::ExpectedQuote, 8, ""));
}

#[test]
fn unterminated_date_is_an_error() {
    assert_eq!(
        err("before(01/01/24 00:00"),
        fault(ParseErrorKind::UnterminatedDate, 7, "01/01/24 00:00")
    );
    assert_eq!(err("after("), fault(ParseErrorKind::UnterminatedDate, 6, ""));
}

#[test]
fn missing_close_paren_is_an_error() {
    assert_eq!(err("(sender('a')"), fault(ParseErrorKind::ExpectedCloseParen, 12, ""));
    assert_eq!(err("(sender('a')]"), fault(ParseErrorKind::ExpectedCloseParen, 12, "]"));
}

#[test]
fn trailing_input_is_an_error() {
    assert_eq!(err("sender('a'))"), fault(ParseErrorKind::TrailingInput, 11, ")"));
    assert_eq!(err("sender('a') "), fault(ParseErrorKind::TrailingInput, 11, " "));
    assert_eq!(err("sender('a')subject('b')"), fault(ParseErrorKind::TrailingInput, 11, "subject('b')"));
}

#[test]
fn invalid_regex_is_an_error() {
    assert_eq!(err("sender('(')"), fault(ParseErrorKind::InvalidRegex, 8, "("));
    assert_eq!(
        err("sender('a')&body(#\"[a-#\")"),
        fault(ParseErrorKind::InvalidRegex, 19, "[a-")
    );
}

#[test]
fn invalid_date_is_an_error() {
    assert_eq!(err("after(yesterday)"), fault(ParseErrorKind::InvalidDate, 6, "yesterday"));
    assert_eq!(err("before(13/01/24 00:00)"), fault(ParseErrorKind::InvalidDate, 7, "13/01/24 00:00"));
    assert_eq!(err("before()"), fault(ParseErrorKind::InvalidDate, 7, ""));
}

#[test]
fn spelling_faults_come_before_literal_faults() {
    assert_eq!(err("sender('(')&"), fault(ParseErrorKind::ExpectedPredicate, 12, ""));
}

#[test]
fn the_leftmost_bad_literal_is_reported() {
    assert_eq!(err("sender('(')|after(x)"), fault(ParseErrorKind::InvalidRegex, 8, "("));
    assert_eq!(err("after(x)|sender('(')"), fault(ParseErrorKind::InvalidDate, 6, "x"));
    assert_eq!(err("!sender('a')&(body('[')|after(x))"), fault(ParseErrorKind::InvalidRegex, 20, "["));
}

#[test]
fn resolve_builds_the_filter_of_an_expression() {
    let e = Expression::Or(
        Box::new(Expression::Not(Box::new(pattern_leaf(Field::Sender, "^a", 0)))),
        Box::new(Expression::And(
            Box::new(pattern_leaf(Field::Subject, "b", 0)),
            Box::new(Expression::Date { bound: Bound::After, literal: "01/01/70 00:00".to_string(), at: 0 }),
        )),
    );
    let f = resolve(e).unwrap();
    assert!(f.matches(&email("bob", "", "")));
    assert!(!f.matches(&email("alice", "", "")));
    assert!(f.matches(&email("alice", "abc", "")));
}

#[test]
fn match_filter_takes_the_compiled_pattern() {
    let ok = match_filter(Field::Subject, Pattern::new("x+"), "x+".to_string(), 3).unwrap();
    match ok {
        Filter::MatchSubject(p) => assert_eq!(p.as_str(), "x+"),
        other => panic!("unexpected filter {:?}", other),
    }
    assert!(matches!(
        match_filter(Field::Sender, Pattern::new("x"), "x".to_string(), 0).unwrap(),
        Filter::MatchSender(_)
    ));
    assert!(matches!(
        match_filter(Field::Body, Pattern::new("x"), "x".to_string(), 0).unwrap(),
        Filter::MatchBody(_)
    ));
    assert_eq!(
        match_filter(Field::Body, None, "(".to_string(), 3).unwrap_err(),
        fault(ParseErrorKind::InvalidRegex, 3, "(")
    );
}

#[test]
fn date_filter_takes_the_parsed_moment() {
    let t = Timestamp { seconds: 5, nanos: 0 };
    assert!(matches!(
        date_filter(Bound::Before, Some(t), "x".to_string(), 1).unwrap(),
        Filter::BeforeTime(u) if u == t
    ));
    assert!(matches!(
        date_filter(Bound::After, Some(t), "x".to_string(), 1).unwrap(),
        Filter::AfterTime(u) if u == t
    ));
    assert_eq!(
        date_filter(Bound::After, None, "x".to_string(), 1).unwrap_err(),
        fault(ParseErrorKind::InvalidDate, 1, "x")
    );
}

#[test]
fn date_reads_the_fixed_layout() {
    assert_eq!(date("02/01/24 00:00"), Some(Timestamp { seconds: 1706745600, nanos: 0 }));
    assert_eq!(date("2024-02-01 00:00"), None);
}

#[test]
fn parsed_filter_evaluates() {
    let f = parse("(sender('^al')|subject(\"urgent\"))&!body(#'spam#')").unwrap();
    assert!(f.matches(&email("alice", "hi", "hello")));
    assert!(f.matches(&email("bob", "urgent: read", "hello")));
    assert!(!f.matches(&email("bob", "hi", "hello")));
    assert!(!f.matches(&email("alice", "hi", "this is spam")));
}
