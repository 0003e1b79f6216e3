use commit_sync::changes::{classify_changed, detect_branch};
use commit_sync::dates::parse_commit_date;
use commit_sync::errors::ExtractError;
use commit_sync::extract::subprocess_text;
use commit_sync::workitems::identifiers_from_message;

#[test]
fn classify_splits_by_status_letter() {
    let changed = classify_changed("A  trunk/a.txt\r\nD  trunk/b.txt/\r\nU  trunk/c.txt");
    assert_eq!(changed.added, vec!["trunk/a.txt".to_string()]);
    assert_eq!(changed.removed, vec!["trunk/b.txt".to_string()]);
    assert_eq!(changed.modified, vec!["trunk/c.txt".to_string()]);
}

#[test]
fn classify_drops_other_leading_characters() {
    let changed = classify_changed("G  odd.txt\r\n_  other.txt\r\nA  kept.txt");
    assert_eq!(changed.added, vec!["kept.txt".to_string()]);
    assert!(changed.removed.is_empty());
    assert!(changed.modified.is_empty());
}

#[test]
fn classify_strips_one_trailing_separator_only() {
    let changed = classify_changed("A  dir//");
    assert_eq!(changed.added, vec!["dir/".to_string()]);
}

#[test]
fn classify_trims_leading_whitespace_of_path() {
    let changed = classify_changed("U \t deep/path");
    assert_eq!(changed.modified, vec!["deep/path".to_string()]);
}

#[test]
fn classify_handles_trailing_line_break() {
    let changed = classify_changed("A  a\r\n");
    assert_eq!(changed.added, vec!["a".to_string()]);
    assert!(changed.removed.is_empty());
}

#[test]
fn classify_empty_text_yields_nothing() {
    let changed = classify_changed("");
    assert!(changed.added.is_empty());
    assert!(changed.removed.is_empty());
    assert!(changed.modified.is_empty());
}

#[test]
fn branch_detected_under_branches() {
    let r = detect_branch("proj/branches/release1/foo.txt");
    assert_eq!(r, Some("release1".to_string()));
}

#[test]
fn branch_not_detected_under_trunk() {
    assert_eq!(detect_branch("proj/trunk/foo.txt"), None);
}

#[test]
fn branch_detected_under_tags() {
    assert_eq!(detect_branch("x/tags/v1_0/y"), Some("v1_0".to_string()));
}

#[test]
fn branch_needs_trailing_separator_after_name() {
    assert_eq!(detect_branch("proj/branches/rel"), None);
}

#[test]
fn branch_first_match_wins() {
    let r = detect_branch("a/branches/first/x\r\nb/branches/second/y");
    assert_eq!(r, Some("first".to_string()));
}

#[test]
fn date_parses_fixed_format() {
    let r = parse_commit_date("2020-05-17 14:27:23 +0800");
    assert_eq!(r, Ok(1589696843));
}

#[test]
fn date_strips_trailing_annotation() {
    let r = parse_commit_date("2020-05-17 14:27:23 +0800 (some weekday note)");
    assert_eq!(r, Ok(1589696843));
}

#[test]
fn date_epoch_origin() {
    assert_eq!(parse_commit_date("1970-01-01 00:00:00 +0000"), Ok(0));
}

#[test]
fn date_negative_offset_adds_time() {
    assert_eq!(parse_commit_date("2020-01-01 00:00:00 -0130"), Ok(1577836800 + 5400));
}

#[test]
fn date_rejects_malformed_text_and_reports_it() {
    assert_eq!(
        parse_commit_date("not a date"),
        Err(ExtractError::DateParse { text: "not a date".to_string() })
    );
}

#[test]
fn date_error_carries_text_without_annotation() {
    assert_eq!(
        parse_commit_date("nonsense (note)"),
        Err(ExtractError::DateParse { text: "nonsense".to_string() })
    );
}

#[test]
fn date_rejects_bad_month_and_day() {
    assert!(parse_commit_date("2020-13-01 00:00:00 +0000").is_err());
    assert!(parse_commit_date("2020-02-30 00:00:00 +0000").is_err());
}

#[test]
fn date_handles_leap_years() {
    assert!(parse_commit_date("2020-02-29 00:00:00 +0000").is_ok());
    assert!(parse_commit_date("2019-02-29 00:00:00 +0000").is_err());
    assert!(parse_commit_date("1900-02-29 00:00:00 +0000").is_err());
    assert!(parse_commit_date("2000-02-29 00:00:00 +0000").is_ok());
}

#[test]
fn work_items_extracted_in_order_with_dashes() {
    let ids = identifiers_from_message("fix #PROD-1234 and #ABC_1-22");
    assert_eq!(ids, vec!["PROD-1234".to_string(), "ABC_1-22".to_string()]);
}

#[test]
fn work_items_need_identifier_dash_digits() {
    assert!(identifiers_from_message("no refs here").is_empty());
    assert!(identifiers_from_message("#missing-digits-").is_empty());
    assert_eq!(identifiers_from_message("#A-1"), vec!["A-1".to_string()]);
}

#[test]
fn work_items_duplicates_preserved() {
    let ids = identifiers_from_message("#X-7 again #X-7");
    assert_eq!(ids, vec!["X-7".to_string(), "X-7".to_string()]);
}

#[test]
fn subprocess_success_decodes_legacy_bytes_and_strips_line_end() {
    // 0xD6 0xD0 is one CJK character under the legacy encoding
    let out = subprocess_text("svnlook log /r -r 1", true, b"ok\xd6\xd0\r\n", b"").unwrap();
    assert_eq!(out, "ok\u{4e2d}");
}

#[test]
fn subprocess_replaces_invalid_bytes() {
    let out = subprocess_text("svnlook log /r -r 1", true, b"a\xffb", b"").unwrap();
    assert_eq!(out, "a\u{fffd}b");
}

#[test]
fn subprocess_failure_prefers_stderr_and_names_the_command() {
    let err =
        subprocess_text("svnlook changed /r -r 1", false, b"stdout words", b"  stderr words \r\n")
            .unwrap_err();
    assert_eq!(
        err,
        ExtractError::Command {
            command: "svnlook changed /r -r 1".to_string(),
            detail: "stderr words".to_string(),
        }
    );
}

#[test]
fn subprocess_failure_falls_back_to_stdout() {
    let err = subprocess_text("svnlook date /r -r 1", false, b"stdout words", b"").unwrap_err();
    assert_eq!(
        err,
        ExtractError::Command {
            command: "svnlook date /r -r 1".to_string(),
            detail: "stdout words".to_string(),
        }
    );
}

#[test]
fn subprocess_failure_empty_output_gets_marker() {
    let err = subprocess_text("svnlook author /r -r 1", false, b"  \r\n", b"").unwrap_err();
    assert_eq!(
        err,
        ExtractError::Command {
            command: "svnlook author /r -r 1".to_string(),
            detail: "(EMPTY)".to_string(),
        }
    );
}

#[test]
fn date_year_boundary() {
    assert_eq!(parse_commit_date("2020-12-31 23:59:59 +0000"), Ok(1609459199));
    assert_eq!(parse_commit_date("2021-01-01 00:00:00 +0000"), Ok(1609459200));
}
