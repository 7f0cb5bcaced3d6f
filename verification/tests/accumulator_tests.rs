use space_email_scraper::accumulator::Accumulator;
use space_email_scraper::record::Record;
use space_email_scraper::timestamp::Timestamp;

fn email(sender: &str, seconds: i64) -> Record {
    Record {
        sender: sender.to_string(),
        subject: "s".to_string(),
        body: "b".to_string(),
        timestamp: Timestamp { seconds, nanos: 0 },
    }
}

#[test]
fn new_accumulator_is_empty() {
    let acc = Accumulator::new();
    assert_eq!(acc.len(), 0);
    assert!(acc.records().is_empty());
    assert!(!acc.contains(&email("a", 1)));
}

#[test]
fn accept_is_idempotent() {
    let mut acc = Accumulator::new();
    assert!(acc.accept(email("a", 1)));
    assert_eq!(acc.len(), 1);
    assert!(!acc.accept(email("a", 1)));
    assert_eq!(acc.len(), 1);
    assert!(!acc.accept(email("a", 1)));
    assert_eq!(acc.len(), 1);
}

#[test]
fn accept_returns_true_once_per_distinct_content() {
    let mut acc = Accumulator::new();
    let offered = vec![
        email("a", 1),
        email("b", 1),
        email("a", 1),
        email("a", 2),
        email("b", 1),
        email("c", 3),
        email("a", 2),
    ];
    let mut added = 0;
    for r in offered {
        if acc.accept(r) {
            added += 1;
        }
    }
    assert_eq!(added, 4);
    assert_eq!(acc.len(), 4);
}

#[test]
fn records_differing_in_one_field_are_distinct() {
    let mut acc = Accumulator::new();
    let base = email("a", 1);
    assert!(acc.accept(base.clone()));
    assert!(acc.accept(Record { sender: "x".to_string(), ..base.clone() }));
    assert!(acc.accept(Record { subject: "x".to_string(), ..base.clone() }));
    assert!(acc.accept(Record { body: "x".to_string(), ..base.clone() }));
    assert!(acc.accept(Record { timestamp: Timestamp { seconds: 1, nanos: 1 }, ..base.clone() }));
    assert!(!acc.accept(base));
    assert_eq!(acc.len(), 5);
}

#[test]
fn contains_tells_what_is_held() {
    let mut acc = Accumulator::new();
    acc.accept(email("a", 1));
    acc.accept(email("b", 2));
    assert!(acc.contains(&email("a", 1)));
    assert!(acc.contains(&email("b", 2)));
    assert!(!acc.contains(&email("a", 2)));
}

#[test]
fn records_lists_each_record_once() {
    let mut acc = Accumulator::new();
    acc.accept(email("b", 2));
    acc.accept(email("a", 1));
    acc.accept(email("b", 2));
    assert_eq!(acc.records(), &vec![email("b", 2), email("a", 1)]);
}

#[test]
fn into_records_gives_up_each_record_once() {
    let mut acc = Accumulator::new();
    acc.accept(email("a", 1));
    acc.accept(email("a", 1));
    acc.accept(email("c", 3));
    assert_eq!(acc.into_records(), vec![email("a", 1), email("c", 3)]);
    assert_eq!(Accumulator::new().into_records(), Vec::<Record>::new());
}
