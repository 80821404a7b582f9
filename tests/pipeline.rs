use clipurl::clipboard::{classify_read_failure, ClipboardRead, PASTEBOARD_NON_STRING_MESSAGE, PASTEBOARD_NULL_MESSAGE};
use clipurl::pipeline::{process, process_parsed, PersistOutcome, SkipReason};
use clipurl::url_text::canonical_url;

fn persisted(o: &PersistOutcome) -> Option<String> {
    match o {
        PersistOutcome::Persist(u) => Some(u.clone()),
        PersistOutcome::Skipped(_) => None,
    }
}

#[test]
fn plain_text_is_not_a_url() {
    let (snapshot, outcome) = process("hello world".to_string(), &String::new());
    assert_eq!(snapshot, "hello world");
    assert!(matches!(outcome, PersistOutcome::Skipped(SkipReason::NotAUrl)));
}

#[test]
fn changed_url_is_persisted() {
    let (snapshot, outcome) = process("https://example.com/a".to_string(), &"hello world".to_string());
    assert_eq!(snapshot, "https://example.com/a");
    assert_eq!(persisted(&outcome), Some("https://example.com/a".to_string()));
}

#[test]
fn same_value_twice_is_persisted_once() {
    let (snapshot, first) = process("https://example.com/a".to_string(), &"hello world".to_string());
    let (snapshot2, second) = process("https://example.com/a".to_string(), &snapshot);
    assert!(persisted(&first).is_some());
    assert!(matches!(second, PersistOutcome::Skipped(SkipReason::Unchanged)));
    assert_eq!(snapshot2, "https://example.com/a");
}

#[test]
fn same_non_url_twice_is_unchanged() {
    let (snapshot, first) = process("just words".to_string(), &String::new());
    let (_, second) = process("just words".to_string(), &snapshot);
    assert!(matches!(first, PersistOutcome::Skipped(SkipReason::NotAUrl)));
    assert!(matches!(second, PersistOutcome::Skipped(SkipReason::Unchanged)));
}

#[test]
fn empty_text_against_empty_snapshot_is_unchanged() {
    let (snapshot, outcome) = process(String::new(), &String::new());
    assert_eq!(snapshot, "");
    assert!(matches!(outcome, PersistOutcome::Skipped(SkipReason::Unchanged)));
}

#[test]
fn empty_text_after_other_text_is_not_a_url() {
    let (snapshot, outcome) = process(String::new(), &"x".to_string());
    assert_eq!(snapshot, "");
    assert!(matches!(outcome, PersistOutcome::Skipped(SkipReason::NotAUrl)));
}

#[test]
fn persisted_url_is_canonical() {
    let (_, outcome) = process("HTTPS://Example.COM".to_string(), &String::new());
    assert_eq!(persisted(&outcome), Some("https://example.com/".to_string()));
}

#[test]
fn process_parsed_uses_given_parse_result() {
    let (s, o) = process_parsed("a".to_string(), &"b".to_string(), Some("c:d".to_string()));
    assert_eq!(s, "a");
    assert_eq!(persisted(&o), Some("c:d".to_string()));
    let (s, o) = process_parsed("a".to_string(), &"b".to_string(), None);
    assert_eq!(s, "a");
    assert!(matches!(o, PersistOutcome::Skipped(SkipReason::NotAUrl)));
    let (s, o) = process_parsed("a".to_string(), &"a".to_string(), Some("c:d".to_string()));
    assert_eq!(s, "a");
    assert!(matches!(o, PersistOutcome::Skipped(SkipReason::Unchanged)));
}

#[test]
fn canonical_url_normalizes() {
    assert_eq!(canonical_url("https://example.net"), Some("https://example.net/".to_string()));
    assert_eq!(canonical_url("hello world"), None);
    assert_eq!(canonical_url(""), None);
    assert_eq!(canonical_url("/relative/path"), None);
}

#[test]
fn canonical_url_round_trips() {
    for input in ["https://user:pw@Example.com:8080/a/../b?q=1#frag", "HTTP://example.com", "mailto:me@example.org", "file:///tmp/x"] {
        let once = canonical_url(input).expect("parses");
        let twice = canonical_url(&once).expect("parses again");
        assert_eq!(once, twice);
    }
}

#[test]
fn empty_pasteboard_messages_are_recoverable() {
    assert!(matches!(classify_read_failure(PASTEBOARD_NULL_MESSAGE.to_string()), ClipboardRead::EmptyOrNonText));
    assert!(matches!(classify_read_failure(PASTEBOARD_NON_STRING_MESSAGE.to_string()), ClipboardRead::EmptyOrNonText));
}

#[test]
fn other_clipboard_failures_are_fatal() {
    match classify_read_failure("connection to display lost".to_string()) {
        ClipboardRead::Fatal(m) => assert_eq!(m, "connection to display lost"),
        _ => panic!("expected a fatal read"),
    }
}
