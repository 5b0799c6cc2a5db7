use errorstack::report::{ChainWalk, Entry, Location, Report, WalkAction};
use errorstack::text::{push_decimal, str_eq};

fn loc(file: &str, line: u32, column: u32) -> Option<Location> {
    Some(Location { file: file.to_string(), line, column })
}

fn entry(message: &str, location: Option<Location>) -> Entry {
    Entry::new(message.to_string(), location)
}

fn typed_chain() -> Report {
    Report::new(
        entry("top: request failed", loc("tests/report.rs", 64, 15)),
        vec![
            entry("middle: service unavailable", loc("tests/report.rs", 63, 18)),
            entry("bottom: connection refused", loc("tests/report.rs", 62, 18)),
        ],
        vec![],
    )
}

#[test]
fn report_single() {
    let report = Report::new(entry("leaf", None), vec![], vec![]);
    let entries = report.entries();
    assert_eq!(entries.len(), 1, "single error should produce one entry");
    assert_eq!(entries[0].message(), "leaf", "message should match Display");
}

#[test]
fn report_chain_typed() {
    let report = typed_chain();
    let messages: Vec<_> = report.entries().iter().map(|e| e.message().to_owned()).collect();
    assert_eq!(
        messages,
        vec!["top: request failed", "middle: service unavailable", "bottom: connection refused"],
        "typed chain should produce entries in source order"
    );
    assert!(
        report.entries().iter().all(|e| e.location().is_some()),
        "all typed entries should have locations"
    );
}

#[test]
fn report_source_tail() {
    let report =
        Report::new(entry("plain source", loc("tests/report.rs", 86, 18)), vec![], vec!["file not found".to_string()]);
    let messages: Vec<_> = report.entries().iter().map(|e| e.message().to_owned()).collect();
    assert_eq!(
        messages,
        vec!["plain source", "file not found"],
        "should fall through to Error::source() for non-ErrorStack tail"
    );
    let tail = report.entries().last().expect("should have entries");
    assert!(tail.location().is_none(), "non-ErrorStack tail should have no location");
}

#[test]
fn report_display_single_cause() {
    let report = Report::new(
        entry("middle: authentication failed", loc("a.rs", 2, 3)),
        vec![entry("bottom: invalid key", loc("a.rs", 1, 3))],
        vec![],
    );
    let output = report.to_string();
    assert!(output.contains("Caused by this error:"), "single cause should use singular header");
    assert!(!output.contains("these errors"), "single cause should not use plural header");
}

#[test]
fn report_display_multiple_causes() {
    let output = typed_chain().to_string();
    assert!(
        output.contains("Caused by these errors (recent errors listed first):"),
        "multiple causes should use plural header"
    );
    assert!(!output.contains("this error:"), "multiple causes should not use singular header");
}

#[test]
fn report_display_exact() {
    let report = Report::new(
        entry("config failed", loc("src/main.rs", 25, 21)),
        vec![entry("invalid config: missing field `port`", loc("src/main.rs", 21, 9))],
        vec![],
    );
    assert_eq!(
        report.to_string(),
        "Error: config failed\n      at src/main.rs:25:21\n\n\
         Caused by this error:\n  1: invalid config: missing field `port`\n        at src/main.rs:21:9"
    );
}

#[test]
fn report_display_numbers_causes() {
    let report = Report::new(
        entry("top", None),
        vec![entry("middle", loc("m.rs", 10, 1))],
        vec!["io".to_string(), "os".to_string()],
    );
    assert_eq!(
        report.to_string(),
        "Error: top\n\nCaused by these errors (recent errors listed first):\n  1: middle\n        at m.rs:10:1\n  2: io\n  3: os"
    );
}

#[test]
fn report_display_no_causes() {
    let report = Report::new(entry("leaf", None), vec![], vec![]);
    assert_eq!(report.to_string(), "Error: leaf");
}

#[test]
fn walk_follows_typed_then_plain() {
    let mut walk = ChainWalk::new(entry("top", loc("t.rs", 1, 1)));
    assert_eq!(walk.action(), WalkAction::AskStackSource);
    walk.on_stack_source(Some(entry("middle", loc("t.rs", 2, 1))));
    assert_eq!(walk.action(), WalkAction::AskStackSource);
    walk.on_stack_source(None);
    assert_eq!(walk.action(), WalkAction::AskSource);
    walk.on_source(Some("disk full".to_string()));
    assert_eq!(walk.action(), WalkAction::AskSource);
    walk.on_source(None);
    assert_eq!(walk.action(), WalkAction::Done);
    let report = walk.into_report();
    let messages: Vec<_> = report.entries().iter().map(|e| e.message().to_owned()).collect();
    assert_eq!(messages, vec!["top", "middle", "disk full"]);
    assert!(report.entries()[2].location().is_none());
    assert_eq!(report.entries()[1].location().unwrap().line, 2);
}

#[test]
fn location_renders_file_line_column() {
    let l = Location { file: "src/lib.rs".to_string(), line: 4294967295, column: 0 };
    assert_eq!(l.to_string(), "src/lib.rs:4294967295:0");
}

#[test]
fn decimal_rendering() {
    for (n, expected) in [(0u64, "0"), (7, "7"), (10, "10"), (909, "909"), (u64::MAX, "18446744073709551615")] {
        let mut s = String::from("x");
        push_decimal(&mut s, n);
        assert_eq!(s, format!("x{expected}"));
    }
}

#[test]
fn string_equality() {
    assert!(str_eq("source", "source"));
    assert!(!str_eq("source", "sourc"));
    assert!(!str_eq("", "a"));
}

#[test]
fn report_chain_splits_at_head() {
    let whole = typed_chain();
    let rest = Report::new(
        entry("middle: service unavailable", loc("tests/report.rs", 63, 18)),
        vec![entry("bottom: connection refused", loc("tests/report.rs", 62, 18))],
        vec![],
    );
    assert_eq!(whole.entries().len(), 1 + rest.entries().len());
    assert_eq!(whole.entries()[0].message(), "top: request failed");
    for (a, b) in whole.entries()[1..].iter().zip(rest.entries()) {
        assert_eq!(a.message(), b.message());
        assert_eq!(a.location(), b.location());
    }
}
