use space_email_scraper::args::Args;
use space_email_scraper::pattern::Pattern;
use space_email_scraper::record::Record;
use space_email_scraper::timestamp::Timestamp;

fn at(seconds: i64) -> Timestamp {
    Timestamp { seconds, nanos: 0 }
}

fn email(sender: &str, subject: &str, body: &str, seconds: i64) -> Record {
    Record {
        sender: sender.to_string(),
        subject: subject.to_string(),
        body: body.to_string(),
        timestamp: at(seconds),
    }
}

fn plain() -> Args {
    Args {
        emails: 0,
        save_path: None,
        cooldown_ms: 250,
        max_volume: 0,
        retries: 10,
        no_reconnect: false,
        reconnect_ms: 30000,
        before: None,
        after: None,
        sender: None,
        subject: None,
        body: None,
        any: None,
        all: false,
    }
}

fn some(text: &str) -> Option<Pattern> {
    Some(Pattern::new(text).unwrap())
}

fn samples() -> Vec<Record> {
    vec![
        email("alice", "hello", "body one", 100),
        email("bob", "hello", "body two", 200),
        email("alice", "bye", "nothing", 300),
        email("carol", "alice", "x", 400),
        email("dave", "y", "alice and bob", 500),
        email("", "", "", 0),
    ]
}

#[test]
fn should_continue_with_no_bounds() {
    let args = plain();
    assert!(args.should_continue(0, 0));
    assert!(args.should_continue(1_000_000, 1_000_000));
}

#[test]
fn should_continue_until_the_target_count() {
    let args = Args { emails: 3, ..plain() };
    assert!(args.should_continue(10, 0));
    assert!(args.should_continue(10, 2));
    assert!(!args.should_continue(10, 3));
    assert!(!args.should_continue(10, 4));
}

#[test]
fn should_continue_until_the_search_volume() {
    let args = Args { max_volume: 4, ..plain() };
    assert!(args.should_continue(0, 0));
    assert!(args.should_continue(3, 3));
    assert!(!args.should_continue(4, 0));
    assert!(!args.should_continue(5, 0));
}

#[test]
fn should_continue_needs_both_bounds_open() {
    let args = Args { emails: 2, max_volume: 4, ..plain() };
    assert!(args.should_continue(3, 1));
    assert!(!args.should_continue(4, 1));
    assert!(!args.should_continue(3, 2));
    assert!(!args.should_continue(4, 2));
}

#[test]
fn filter_without_options_accepts_everything() {
    for r in samples() {
        assert!(plain().filter(&r));
        assert!(Args { all: true, ..plain() }.filter(&r));
    }
}

#[test]
fn filter_applies_time_bounds_inclusively() {
    let args = Args { before: Some(at(300)), after: Some(at(200)), ..plain() };
    let verdicts: Vec<bool> = samples().iter().map(|r| args.filter(r)).collect();
    assert_eq!(verdicts, vec![false, true, true, false, false, false]);
}

#[test]
fn filter_any_mode_needs_one_matcher_to_hit() {
    let args = Args { sender: some("^alice$"), subject: some("^hello$"), ..plain() };
    let verdicts: Vec<bool> = samples().iter().map(|r| args.filter(r)).collect();
    assert_eq!(verdicts, vec![true, true, true, false, false, false]);
}

#[test]
fn filter_all_mode_needs_every_matcher_to_hit() {
    let args = Args { sender: some("^alice$"), subject: some("^hello$"), all: true, ..plain() };
    let verdicts: Vec<bool> = samples().iter().map(|r| args.filter(r)).collect();
    assert_eq!(verdicts, vec![true, false, false, false, false, false]);
}

#[test]
fn filter_any_matcher_reads_all_three_fields() {
    let args = Args { any: some("alice"), ..plain() };
    let verdicts: Vec<bool> = samples().iter().map(|r| args.filter(r)).collect();
    assert_eq!(verdicts, vec![true, false, true, true, true, false]);
    let strict = Args { any: some("alice"), body: some("bob"), all: true, ..plain() };
    let verdicts: Vec<bool> = samples().iter().map(|r| strict.filter(r)).collect();
    assert_eq!(verdicts, vec![false, false, false, false, true, false]);
}

#[test]
fn filter_time_bounds_hold_in_either_mode() {
    let args = Args { sender: some("alice"), before: Some(at(100)), ..plain() };
    let verdicts: Vec<bool> = samples().iter().map(|r| args.filter(r)).collect();
    assert_eq!(verdicts, vec![true, false, false, false, false, false]);
    let args = Args { sender: some("alice"), after: Some(at(300)), all: true, ..plain() };
    let verdicts: Vec<bool> = samples().iter().map(|r| args.filter(r)).collect();
    assert_eq!(verdicts, vec![false, false, true, false, false, false]);
}

fn variants() -> Vec<Args> {
    let mut out = Vec::new();
    for all in [false, true] {
        for mask in 0..16u32 {
            for bounds in 0..4u32 {
                out.push(Args {
                    sender: if mask & 1 != 0 { some("a") } else { None },
                    subject: if mask & 2 != 0 { some("hello") } else { None },
                    body: if mask & 4 != 0 { some("o") } else { None },
                    any: if mask & 8 != 0 { some("alice") } else { None },
                    before: if bounds & 1 != 0 { Some(at(300)) } else { None },
                    after: if bounds & 2 != 0 { Some(at(200)) } else { None },
                    all,
                    ..plain()
                });
            }
        }
    }
    out
}

#[test]
fn into_config_filter_agrees_with_filter() {
    for args in variants() {
        let expected: Vec<bool> = samples().iter().map(|r| args.filter(r)).collect();
        let config = args.into_config();
        let got: Vec<bool> = samples().iter().map(|r| config.filter.matches(r)).collect();
        assert_eq!(got, expected);
    }
}

#[test]
fn into_config_copies_the_limits() {
    let config = Args { emails: 7, max_volume: 9, cooldown_ms: 11, retries: 13, reconnect_ms: 17, ..plain() }
        .into_config();
    assert_eq!(config.emails, 7);
    assert_eq!(config.max_volume, 9);
    assert_eq!(config.cooldown_ms, 11);
    assert_eq!(config.retries, 13);
    assert_eq!(config.reconnect_ms, Some(17));
    assert!(config.should_continue(8, 6));
    assert!(!config.should_continue(9, 6));
    assert!(!config.should_continue(8, 7));
}

#[test]
fn into_config_without_reconnect_has_no_reconnect_pause() {
    let config = Args { no_reconnect: true, reconnect_ms: 17, ..plain() }.into_config();
    assert_eq!(config.reconnect_ms, None);
}

#[test]
fn narrowed_config_needs_both_filters() {
    let config = Args { sender: some("^alice$"), emails: 3, ..plain() }.into_config();
    let narrowed = config.narrowed(space_email_scraper::filter::Filter::MatchSubject(
        Pattern::new("^hello$").unwrap(),
    ));
    let verdicts: Vec<bool> = samples().iter().map(|r| narrowed.filter.matches(r)).collect();
    assert_eq!(verdicts, vec![true, false, false, false, false, false]);
    assert_eq!(narrowed.emails, 3);
    assert_eq!(narrowed.retries, 10);
    assert_eq!(narrowed.reconnect_ms, Some(30000));
}
