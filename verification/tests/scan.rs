use rufio_native::entry::{DirEntry, Metadata, ModifiedTime};
use rufio_native::error::ScanError;
use rufio_native::listing::{Item, Opening};
use rufio_native::scan::{get_version, scan_directory, scan_directory_fast};

fn dir_meta() -> Metadata {
    Metadata { is_dir: true, len: 4096, modified: ModifiedTime::SinceEpoch { secs: 100 }, mode: Some(0o40755) }
}

fn file_meta(len: u64, mode: u32) -> Metadata {
    Metadata { is_dir: false, len, modified: ModifiedTime::SinceEpoch { secs: 200 }, mode: Some(mode) }
}

fn entry(name: &str, metadata: Metadata) -> Item {
    Item::Entry { name: name.to_string(), metadata }
}

fn failure(message: &str) -> Item {
    Item::Failed { message: message.to_string() }
}

fn tmp_d() -> Vec<Item> {
    vec![
        entry(".", dir_meta()),
        entry("..", dir_meta()),
        entry("sub", Metadata { mode: Some(0o40644), ..dir_meta() }),
        entry(".secret", file_meta(0, 0o100600)),
        entry("run.sh", file_meta(42, 0o100755)),
    ]
}

fn names(records: &[DirEntry]) -> Vec<String> {
    records.iter().map(|record| record.name().to_string()).collect()
}

#[test]
fn scan_reports_the_three_entries() {
    let records = scan_directory("/tmp/d", Opening::Opened, &tmp_d()).unwrap();
    assert_eq!(records.len(), 3);

    let sub = records.iter().find(|record| record.name() == "sub").unwrap();
    assert!(sub.is_dir());
    assert!(!sub.hidden());
    assert!(!sub.executable());

    let secret = records.iter().find(|record| record.name() == ".secret").unwrap();
    assert!(!secret.is_dir());
    assert_eq!(secret.size(), 0);
    assert!(secret.hidden());
    assert!(!secret.executable());

    let run = records.iter().find(|record| record.name() == "run.sh").unwrap();
    assert!(!run.is_dir());
    assert_eq!(run.size(), 42);
    assert!(!run.hidden());
    assert!(run.executable());
}

#[test]
fn scan_bounded_to_one_reports_one_of_the_three() {
    let full = scan_directory("/tmp/d", Opening::Opened, &tmp_d()).unwrap();
    let capped = scan_directory_fast("/tmp/d", Opening::Opened, &tmp_d(), 1).unwrap();
    assert_eq!(capped.len(), 1);
    let same = full.iter().find(|record| record.name() == capped[0].name()).unwrap();
    assert_eq!(*same, capped[0]);
    assert_eq!(capped[0].name(), "sub");
    assert!(capped[0].is_dir());
    assert!(!capped[0].hidden());
    assert!(!capped[0].executable());
}

#[test]
fn scan_keeps_listing_order() {
    let records = scan_directory("/tmp/d", Opening::Opened, &tmp_d()).unwrap();
    assert_eq!(names(&records), vec!["sub", ".secret", "run.sh"]);
    let mut reversed = tmp_d();
    reversed.reverse();
    let records = scan_directory("/tmp/d", Opening::Opened, &reversed).unwrap();
    assert_eq!(names(&records), vec!["run.sh", ".secret", "sub"]);
}

#[test]
fn dot_names_never_appear() {
    let full = scan_directory("/tmp/d", Opening::Opened, &tmp_d()).unwrap();
    assert!(full.iter().all(|record| record.name() != "." && record.name() != ".."));
    for cap in 0..6 {
        let capped = scan_directory_fast("/tmp/d", Opening::Opened, &tmp_d(), cap).unwrap();
        assert!(capped.iter().all(|record| record.name() != "." && record.name() != ".."));
    }
}

#[test]
fn hidden_iff_name_begins_with_dot() {
    let items = vec![
        entry("...", file_meta(1, 0o644)),
        entry(".a", file_meta(1, 0o644)),
        entry("a.", file_meta(1, 0o644)),
        entry("a", file_meta(1, 0o644)),
    ];
    let records = scan_directory("/d", Opening::Opened, &items).unwrap();
    assert_eq!(records.len(), 4);
    for record in &records {
        assert_eq!(record.hidden(), record.name().starts_with('.'));
    }
    assert!(records[0].hidden());
    assert!(records[1].hidden());
    assert!(!records[2].hidden());
    assert!(!records[3].hidden());
}

#[test]
fn executable_follows_the_execute_bits() {
    let items = vec![
        entry("owner", file_meta(1, 0o100)),
        entry("group", file_meta(1, 0o010)),
        entry("other", file_meta(1, 0o001)),
        entry("plain", file_meta(1, 0o666)),
        entry("no_bits", Metadata { mode: None, ..file_meta(1, 0) }),
    ];
    let records = scan_directory("/d", Opening::Opened, &items).unwrap();
    let flags: Vec<bool> = records.iter().map(|record| record.executable()).collect();
    assert_eq!(flags, vec![true, true, true, false, false]);
}

#[test]
fn an_empty_directory_gives_no_records() {
    let records = scan_directory("/empty", Opening::Opened, &[]).unwrap();
    assert!(records.is_empty());
    let records = scan_directory_fast("/empty", Opening::Opened, &[], 10).unwrap();
    assert!(records.is_empty());
    let only_dots = vec![entry(".", dir_meta()), entry("..", dir_meta())];
    let records = scan_directory("/empty", Opening::Opened, &only_dots).unwrap();
    assert!(records.is_empty());
}

#[test]
fn bounded_scan_never_exceeds_its_cap() {
    for cap in 0..6 {
        let records = scan_directory_fast("/tmp/d", Opening::Opened, &tmp_d(), cap).unwrap();
        assert_eq!(records.len(), cap.min(3));
    }
}

#[test]
fn bounded_scan_with_cap_zero_is_empty() {
    let records = scan_directory_fast("/tmp/d", Opening::Opened, &tmp_d(), 0).unwrap();
    assert!(records.is_empty());
    let failing = vec![failure("boom")];
    let records = scan_directory_fast("/tmp/d", Opening::Opened, &failing, 0).unwrap();
    assert!(records.is_empty());
}

#[test]
fn bounded_scan_returns_the_first_records() {
    let full = scan_directory("/tmp/d", Opening::Opened, &tmp_d()).unwrap();
    let capped = scan_directory_fast("/tmp/d", Opening::Opened, &tmp_d(), 2).unwrap();
    assert_eq!(capped.len(), 2);
    assert_eq!(capped[0], full[0]);
    assert_eq!(capped[1], full[1]);
    assert_eq!(names(&capped), vec!["sub", ".secret"]);
}

#[test]
fn a_wide_cap_gives_the_full_scan() {
    let full = scan_directory("/tmp/d", Opening::Opened, &tmp_d()).unwrap();
    for cap in [3, 4, 100, 101, usize::MAX] {
        let capped = scan_directory_fast("/tmp/d", Opening::Opened, &tmp_d(), cap).unwrap();
        assert_eq!(capped, full);
    }
}

#[test]
fn skipped_names_do_not_count_against_the_cap() {
    let items = vec![
        entry(".", dir_meta()),
        entry("..", dir_meta()),
        entry("a", file_meta(1, 0o644)),
        entry("b", file_meta(2, 0o644)),
    ];
    let records = scan_directory_fast("/d", Opening::Opened, &items, 1).unwrap();
    assert_eq!(names(&records), vec!["a"]);
    let records = scan_directory_fast("/d", Opening::Opened, &items, 2).unwrap();
    assert_eq!(names(&records), vec!["a", "b"]);
}

#[test]
fn a_missing_directory_is_not_found() {
    let error = scan_directory("/no/such/dir", Opening::NotDirectory, &[]).unwrap_err();
    assert_eq!(error, ScanError::NotFound { path: "/no/such/dir".to_string() });
    let error = scan_directory_fast("/no/such/dir", Opening::NotDirectory, &[], 5).unwrap_err();
    assert_eq!(error, ScanError::NotFound { path: "/no/such/dir".to_string() });
    let error = scan_directory_fast("/etc/hosts", Opening::NotDirectory, &[], 0).unwrap_err();
    assert_eq!(error, ScanError::NotFound { path: "/etc/hosts".to_string() });
}

#[test]
fn not_found_ignores_any_items() {
    let error = scan_directory("/etc/hosts", Opening::NotDirectory, &tmp_d()).unwrap_err();
    assert_eq!(error, ScanError::NotFound { path: "/etc/hosts".to_string() });
}

#[test]
fn a_listing_that_does_not_open_is_a_failure() {
    let opening = Opening::Failed { message: "Permission denied (os error 13)".to_string() };
    let error = scan_directory("/root", opening, &[]).unwrap_err();
    assert_eq!(error, ScanError::IOFailure { message: "Permission denied (os error 13)".to_string() });
    let opening = Opening::Failed { message: "Permission denied (os error 13)".to_string() };
    let error = scan_directory_fast("/root", opening, &[], 0).unwrap_err();
    assert_eq!(error, ScanError::IOFailure { message: "Permission denied (os error 13)".to_string() });
}

#[test]
fn a_failing_entry_fails_the_full_scan() {
    let items = vec![
        entry("a", file_meta(1, 0o644)),
        failure("stale file handle"),
        entry("b", file_meta(2, 0o644)),
        failure("second"),
    ];
    let error = scan_directory("/d", Opening::Opened, &items).unwrap_err();
    assert_eq!(error, ScanError::IOFailure { message: "stale file handle".to_string() });
}

#[test]
fn a_failing_entry_before_the_cap_fails_the_bounded_scan() {
    let items = vec![
        entry("a", file_meta(1, 0o644)),
        failure("stale file handle"),
        entry("b", file_meta(2, 0o644)),
    ];
    let error = scan_directory_fast("/d", Opening::Opened, &items, 2).unwrap_err();
    assert_eq!(error, ScanError::IOFailure { message: "stale file handle".to_string() });
    let error = scan_directory_fast("/d", Opening::Opened, &items, 3).unwrap_err();
    assert_eq!(error, ScanError::IOFailure { message: "stale file handle".to_string() });
}

#[test]
fn a_failing_entry_beyond_the_cap_is_never_read() {
    let items = vec![
        entry("a", file_meta(1, 0o644)),
        failure("stale file handle"),
        entry("b", file_meta(2, 0o644)),
    ];
    let records = scan_directory_fast("/d", Opening::Opened, &items, 1).unwrap();
    assert_eq!(names(&records), vec!["a"]);
}

#[test]
fn a_failure_after_a_skipped_name_still_fails() {
    let items = vec![entry(".", dir_meta()), failure("io"), entry("a", file_meta(1, 0o644))];
    let error = scan_directory_fast("/d", Opening::Opened, &items, 1).unwrap_err();
    assert_eq!(error, ScanError::IOFailure { message: "io".to_string() });
}

#[test]
fn error_messages() {
    let error = ScanError::NotFound { path: "/no/such/dir".to_string() };
    assert_eq!(error.message(), "Directory does not exist: /no/such/dir");
    let error = ScanError::IOFailure { message: "Permission denied (os error 13)".to_string() };
    assert_eq!(error.message(), "Permission denied (os error 13)");
    assert_eq!(error.clone(), error);
}

#[test]
fn version_string() {
    assert_eq!(get_version(), "1.0.0-magnus");
}
