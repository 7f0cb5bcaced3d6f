use space_email_scraper::filter::Filter;
use space_email_scraper::pattern::Pattern;
use space_email_scraper::record::Record;
use space_email_scraper::timestamp::Timestamp;

fn at(seconds: i64) -> Timestamp {
    Timestamp { seconds, nanos: 0 }
}

fn email(sender: &str, subject: &str, body: &str, seconds: i64) -> Record {
    Record {
        sender: sender.to_string(),
        subject: subject.to_string(),
        body: body.to_string(),
        timestamp: at(seconds),
    }
}

fn pattern(text: &str) -> Pattern {
    Pattern::new(text).unwrap()
}

fn samples() -> Vec<Record> {
    vec![
        email("alice", "hello", "first body", 100),
        email("bob", "re: hello", "second body", 200),
        email("", "", "", 0),
        email("carol", "goodbye", "alice was here", 300),
    ]
}

#[test]
fn empty_matches_every_record() {
    for r in samples() {
        assert!(Filter::Empty.matches(&r));
    }
}

#[test]
fn and_is_conjunction() {
    for r in samples() {
        let a = Filter::MatchSender(pattern("a")).matches(&r);
        let b = Filter::MatchSubject(pattern("hello")).matches(&r);
        let both = Filter::And(
            Box::new(Filter::MatchSender(pattern("a"))),
            Box::new(Filter::MatchSubject(pattern("hello"))),
        );
        assert_eq!(both.matches(&r), a && b);
    }
}

#[test]
fn or_is_disjunction() {
    for r in samples() {
        let a = Filter::MatchSender(pattern("a")).matches(&r);
        let b = Filter::MatchSubject(pattern("hello")).matches(&r);
        let either = Filter::Or(
            Box::new(Filter::MatchSender(pattern("a"))),
            Box::new(Filter::MatchSubject(pattern("hello"))),
        );
        assert_eq!(either.matches(&r), a || b);
    }
}

#[test]
fn not_is_negation() {
    for r in samples() {
        let a = Filter::MatchBody(pattern("body")).matches(&r);
        let negated = Filter::Not(Box::new(Filter::MatchBody(pattern("body"))));
        assert_eq!(negated.matches(&r), !a);
    }
}

#[test]
fn de_morgan_holds_on_samples() {
    for r in samples() {
        let not_and = Filter::not(Filter::and(
            Filter::MatchSender(pattern("a")),
            Filter::MatchSubject(pattern("hello")),
        ));
        let or_nots = Filter::or(
            Filter::not(Filter::MatchSender(pattern("a"))),
            Filter::not(Filter::MatchSubject(pattern("hello"))),
        );
        assert_eq!(not_and.matches(&r), or_nots.matches(&r));
        let not_or = Filter::not(Filter::or(
            Filter::MatchSender(pattern("a")),
            Filter::MatchSubject(pattern("hello")),
        ));
        let and_nots = Filter::and(
            Filter::not(Filter::MatchSender(pattern("a"))),
            Filter::not(Filter::MatchSubject(pattern("hello"))),
        );
        assert_eq!(not_or.matches(&r), and_nots.matches(&r));
    }
}

#[test]
fn double_negation_changes_nothing() {
    for r in samples() {
        let plain = Filter::MatchSender(pattern("^b")).matches(&r);
        let twice = Filter::not(Filter::not(Filter::MatchSender(pattern("^b"))));
        assert_eq!(twice.matches(&r), plain);
    }
}

#[test]
fn constructors_build_the_variants() {
    assert!(matches!(Filter::and(Filter::Empty, Filter::Empty), Filter::And(_, _)));
    assert!(matches!(Filter::or(Filter::Empty, Filter::Empty), Filter::Or(_, _)));
    assert!(matches!(Filter::not(Filter::Empty), Filter::Not(_)));
}

#[test]
fn patterns_search_anywhere_in_the_field() {
    let r = email("alice", "hello world", "lorem ipsum", 0);
    assert!(Filter::MatchSender(pattern("lic")).matches(&r));
    assert!(Filter::MatchSubject(pattern("o w")).matches(&r));
    assert!(Filter::MatchBody(pattern("ipsum$")).matches(&r));
}

#[test]
fn anchored_patterns_must_match_at_the_anchor() {
    let r = email("alice", "hello world", "lorem ipsum", 0);
    assert!(!Filter::MatchSender(pattern("^lic")).matches(&r));
    assert!(Filter::MatchSender(pattern("^alice$")).matches(&r));
    assert!(!Filter::MatchSubject(pattern("^world")).matches(&r));
    assert!(!Filter::MatchBody(pattern("lorem$")).matches(&r));
}

#[test]
fn each_matcher_reads_its_own_field() {
    let r = email("sss", "uuu", "bbb", 0);
    assert!(Filter::MatchSender(pattern("s")).matches(&r));
    assert!(!Filter::MatchSender(pattern("u")).matches(&r));
    assert!(!Filter::MatchSender(pattern("b")).matches(&r));
    assert!(Filter::MatchSubject(pattern("u")).matches(&r));
    assert!(!Filter::MatchSubject(pattern("s")).matches(&r));
    assert!(Filter::MatchBody(pattern("b")).matches(&r));
    assert!(!Filter::MatchBody(pattern("u")).matches(&r));
}

#[test]
fn a_pattern_does_not_match_every_text() {
    let hit = email("abc", "", "", 0);
    let miss = email("xyz", "", "", 0);
    let f = Filter::MatchSender(pattern("b"));
    assert!(f.matches(&hit));
    assert!(!f.matches(&miss));
}

#[test]
fn before_is_inclusive() {
    let r = email("a", "b", "c", 100);
    assert!(Filter::BeforeTime(at(100)).matches(&r));
    assert!(Filter::BeforeTime(at(101)).matches(&r));
    assert!(!Filter::BeforeTime(at(99)).matches(&r));
}

#[test]
fn after_is_inclusive() {
    let r = email("a", "b", "c", 100);
    assert!(Filter::AfterTime(at(100)).matches(&r));
    assert!(Filter::AfterTime(at(99)).matches(&r));
    assert!(!Filter::AfterTime(at(101)).matches(&r));
}

#[test]
fn time_bounds_look_at_the_nanoseconds() {
    let r = Record {
        sender: String::new(),
        subject: String::new(),
        body: String::new(),
        timestamp: Timestamp { seconds: 100, nanos: 500 },
    };
    assert!(!Filter::BeforeTime(Timestamp { seconds: 100, nanos: 499 }).matches(&r));
    assert!(Filter::BeforeTime(Timestamp { seconds: 100, nanos: 500 }).matches(&r));
    assert!(Filter::AfterTime(Timestamp { seconds: 100, nanos: 500 }).matches(&r));
    assert!(!Filter::AfterTime(Timestamp { seconds: 100, nanos: 501 }).matches(&r));
    assert!(Filter::AfterTime(Timestamp { seconds: 99, nanos: 999_999_999 }).matches(&r));
}

#[test]
fn pattern_keeps_its_text() {
    assert_eq!(pattern("a.*b").as_str(), "a.*b");
    assert_eq!(pattern("").as_str(), "");
    assert_eq!(pattern(r"foo\w+bar").as_str(), r"foo\w+bar");
}

#[test]
fn pattern_rejects_what_is_no_expression() {
    assert!(Pattern::new("foo(bar").is_none());
    assert!(Pattern::new("[").is_none());
    assert!(Pattern::new("*").is_none());
    assert!(Pattern::new("a|b").is_some());
}

#[test]
fn duplicate_pattern_matches_alike() {
    let p = pattern("^a+$");
    let q = p.duplicate();
    assert_eq!(q.as_str(), "^a+$");
    let yes = email("aaa", "", "", 0);
    let no = email("aab", "", "", 0);
    assert!(Filter::MatchSender(q).matches(&yes));
    assert!(!Filter::MatchSender(p).matches(&no));
}

#[test]
fn timestamp_order() {
    let a = Timestamp { seconds: 1, nanos: 5 };
    let b = Timestamp { seconds: 1, nanos: 6 };
    let c = Timestamp { seconds: 2, nanos: 0 };
    assert!(a.le(&a) && a.ge(&a));
    assert!(a.le(&b) && !b.le(&a));
    assert!(b.le(&c) && !c.le(&b));
    assert!(c.ge(&a) && !a.ge(&c));
    let early = Timestamp { seconds: -5, nanos: 0 };
    assert!(early.le(&a) && !early.ge(&a));
}

#[test]
fn date_literal_gives_seconds_since_the_epoch() {
    assert_eq!(Timestamp::parse("01/31/24 13:45"), Some(Timestamp { seconds: 1706708700, nanos: 0 }));
    assert_eq!(Timestamp::parse("01/01/70 00:00"), Some(Timestamp { seconds: 0, nanos: 0 }));
    assert_eq!(Timestamp::parse("01/01/70 00:01"), Some(Timestamp { seconds: 60, nanos: 0 }));
    assert_eq!(Timestamp::parse("12/31/69 23:59"), Some(Timestamp { seconds: 3155759940, nanos: 0 }));
}

#[test]
fn date_literal_must_follow_the_layout() {
    assert_eq!(Timestamp::parse(""), None);
    assert_eq!(Timestamp::parse("13/01/24 00:00"), None);
    assert_eq!(Timestamp::parse("01/32/24 00:00"), None);
    assert_eq!(Timestamp::parse("01/31/24"), None);
    assert_eq!(Timestamp::parse("01/31/24 24:00"), None);
    assert_eq!(Timestamp::parse("01/31/24 13:45 x"), None);
    assert_eq!(Timestamp::parse("yesterday"), None);
}

#[test]
fn same_content_compares_all_fields() {
    let r = email("a", "b", "c", 1);
    assert!(r.same_content(&email("a", "b", "c", 1)));
    assert!(!r.same_content(&email("x", "b", "c", 1)));
    assert!(!r.same_content(&email("a", "x", "c", 1)));
    assert!(!r.same_content(&email("a", "b", "x", 1)));
    assert!(!r.same_content(&email("a", "b", "c", 2)));
    assert!(r.clone().same_content(&r));
}
