use compiler_llvm_builder::error::BuildError;
use compiler_llvm_builder::lock::{LockFile, LockRecord};

fn record(reference: Option<&str>) -> LockRecord {
    LockRecord {
        url: "https://example/repo".to_string(),
        branch: "main".to_string(),
        reference: reference.map(|text| text.to_string()),
    }
}

#[test]
fn lock_without_reference_round_trips_and_is_stale() {
    let original = record(None);
    let document = original.write();
    assert_eq!(document, "url = \"https://example/repo\"\nbranch = \"main\"\n");
    let read = LockRecord::parse(&document).unwrap();
    assert_eq!(read, original);
    assert!(read.is_stale("abc123"));
}

#[test]
fn lock_with_reference_round_trips() {
    let original = record(Some("b5ccf6d5774e9bc3cee47ab4a334404718d3adfd"));
    let document = original.write();
    assert_eq!(
        document,
        "url = \"https://example/repo\"\nbranch = \"main\"\nref = \"b5ccf6d5774e9bc3cee47ab4a334404718d3adfd\"\n"
    );
    assert_eq!(LockRecord::parse(&document), Some(original));
}

#[test]
fn lock_is_stale_unless_pinned_to_the_requested_reference() {
    let pinned = record(Some("abc123"));
    assert!(!pinned.is_stale("abc123"));
    assert!(pinned.is_stale("abc124"));
    assert!(pinned.is_stale(""));
    assert!(record(None).is_stale(""));
}

#[test]
fn lock_values_with_quotes_backslashes_and_line_feeds_round_trip() {
    let original = LockRecord {
        url: "a\"b\\c\nd".to_string(),
        branch: "\\n\"\"".to_string(),
        reference: Some("".to_string()),
    };
    let document = original.write();
    assert_eq!(
        document,
        "url = \"a\\\"b\\\\c\\nd\"\nbranch = \"\\\\n\\\"\\\"\"\nref = \"\"\n"
    );
    assert_eq!(LockRecord::parse(&document), Some(original));
}

#[test]
fn lock_with_an_empty_reference_differs_from_one_without() {
    let empty = LockRecord::parse("url = \"u\"\nbranch = \"b\"\nref = \"\"\n").unwrap();
    let absent = LockRecord::parse("url = \"u\"\nbranch = \"b\"\n").unwrap();
    assert_eq!(empty.reference, Some(String::new()));
    assert_eq!(absent.reference, None);
    assert_ne!(empty, absent);
}

#[test]
fn malformed_lock_documents_are_rejected() {
    for text in [
        "",
        "url = \"u\"\n",
        "branch = \"b\"\nurl = \"u\"\n",
        "url = \"u\"\nbranch = \"b\"",
        "url = \"u\"\nbranch = \"b\"\n\n",
        "url = \"u\"\nbranch = \"b\"\nref = \"r\"\nref = \"r\"\n",
        "url = \"u\"\nbranch = \"b\"\ntag = \"r\"\n",
        "url=\"u\"\nbranch = \"b\"\n",
        "url = \"u\nbranch = \"b\"\n",
        "url = \"u\\t\"\nbranch = \"b\"\n",
        "url = \"u\\\"\nbranch = \"b\"\n",
        "url = \"u\" \nbranch = \"b\"\n",
    ] {
        assert_eq!(LockRecord::parse(text), None, "{:?}", text);
    }
}

#[test]
fn reading_the_lock_file_tells_parse_failures_from_unreadable_files() {
    assert_eq!(
        LockRecord::read(LockFile::Text { text: "url = \"u\"\nbranch = \"b\"\n".to_string() }),
        Ok(LockRecord { url: "u".to_string(), branch: "b".to_string(), reference: None })
    );
    assert_eq!(
        LockRecord::read(LockFile::Text { text: "nonsense".to_string() }),
        Err(BuildError::Parse { reason: "The lock file is malformed".to_string() })
    );
    assert_eq!(
        LockRecord::read(LockFile::Unreadable { reason: "No such file".to_string() }),
        Err(BuildError::Io { reason: "No such file".to_string() })
    );
}
