use ggrep::config::{exit_status, should_colorize, ColorMode, Config, OutputMode, PATTERN_ERROR_STATUS};
use ggrep::pattern::{build_matcher, Matcher};
use ggrep::scan::{count_matches, highlight_line, scan_file, usize_to_string};

fn matcher(keyword: &str, ignore_case: bool) -> Matcher {
    build_matcher(&Config {
        keyword: keyword.to_string(),
        prefix: ".".to_string(),
        ignore_case,
        invert_match: false,
        count: false,
        list_files: false,
        fixed_strings: false,
        word_regexp: false,
        color: ColorMode::Auto,
    })
    .unwrap()
}

fn lines(texts: &[&str]) -> Vec<String> {
    texts.iter().map(|t| t.to_string()).collect()
}

#[test]
fn full_listing_reports_qualifying_lines_in_order() {
    let path = "./a.py".to_string();
    let file = lines(&["foo", "bar", "foobar"]);
    let m = matcher("foo", false);
    let report = scan_file(&path, &file, &m, false, OutputMode::Full, false);
    assert_eq!(report.records, vec!["./a.py:1:foo", "./a.py:3:foobar"]);
    assert!(report.found);
    assert_eq!(exit_status(true), 0);
}

#[test]
fn other_files_contribute_nothing() {
    let path = "./b.txt".to_string();
    let file = lines(&["baz"]);
    let m = matcher("foo", false);
    let report = scan_file(&path, &file, &m, false, OutputMode::Full, false);
    assert!(report.records.is_empty());
    assert!(!report.found);
}

#[test]
fn count_mode_prints_path_and_count() {
    let path = "./a.py".to_string();
    let file = lines(&["foo", "bar", "foobar"]);
    let m = matcher("foo", false);
    let report = scan_file(&path, &file, &m, false, OutputMode::Count, false);
    assert_eq!(report.records, vec!["./a.py:2"]);
    assert!(report.found);
}

#[test]
fn list_mode_prints_the_path_alone() {
    let path = "./a.py".to_string();
    let file = lines(&["foo", "bar", "foobar"]);
    let m = matcher("foo", false);
    let report = scan_file(&path, &file, &m, false, OutputMode::List, false);
    assert_eq!(report.records, vec!["./a.py"]);
    assert!(report.found);
}

#[test]
fn no_match_means_no_output_and_failure_status() {
    let m = matcher("nomatch", false);
    let a = scan_file(&"./a.py".to_string(), &lines(&["foo", "bar", "foobar"]), &m, false, OutputMode::Full, false);
    let b = scan_file(&"./b.txt".to_string(), &lines(&["baz"]), &m, false, OutputMode::Full, false);
    assert!(a.records.is_empty() && b.records.is_empty());
    assert!(!a.found && !b.found);
    assert_eq!(exit_status(false), 1);
}

#[test]
fn count_and_list_modes_emit_nothing_without_a_qualifying_line() {
    let path = "./a.py".to_string();
    let file = lines(&["bar", "baz"]);
    let m = matcher("foo", false);
    let count = scan_file(&path, &file, &m, false, OutputMode::Count, false);
    let list = scan_file(&path, &file, &m, false, OutputMode::List, false);
    assert!(count.records.is_empty() && !count.found);
    assert!(list.records.is_empty() && !list.found);
}

#[test]
fn inverted_and_plain_counts_partition_the_file() {
    let file = lines(&["foo", "bar", "foobar", "", "barfoo"]);
    let m = matcher("foo", false);
    let plain = count_matches(&file, &m, false);
    let inverted = count_matches(&file, &m, true);
    assert_eq!(plain + inverted, file.len());
    assert_eq!(plain, 3);
    assert_eq!(inverted, 2);
}

#[test]
fn pattern_matching_every_line_inverts_to_zero() {
    let file = lines(&["aa", "ab", "ac"]);
    let m = matcher("a", false);
    assert_eq!(count_matches(&file, &m, false), 3);
    assert_eq!(count_matches(&file, &m, true), 0);
}

#[test]
fn inverted_full_listing_reports_the_non_matching_lines() {
    let path = "./a.py".to_string();
    let file = lines(&["foo", "bar", "foobar"]);
    let m = matcher("foo", false);
    let report = scan_file(&path, &file, &m, true, OutputMode::Full, false);
    assert_eq!(report.records, vec!["./a.py:2:bar"]);
    assert!(report.found);
}

#[test]
fn line_numbers_past_nine_render_with_two_digits() {
    let path = "./a.py".to_string();
    let mut texts = vec!["bar"; 11];
    texts.push("foo");
    let file = lines(&texts);
    let m = matcher("foo", false);
    let report = scan_file(&path, &file, &m, false, OutputMode::Full, false);
    assert_eq!(report.records, vec!["./a.py:12:foo"]);
}

#[test]
fn decimal_rendering_is_exact() {
    assert_eq!(usize_to_string(0), "0");
    assert_eq!(usize_to_string(7), "7");
    assert_eq!(usize_to_string(10), "10");
    assert_eq!(usize_to_string(120), "120");
    assert_eq!(usize_to_string(9876), "9876");
}

#[test]
fn colorize_decision_follows_the_mode() {
    assert!(!should_colorize(ColorMode::Never, true));
    assert!(!should_colorize(ColorMode::Never, false));
    assert!(should_colorize(ColorMode::Always, true));
    assert!(should_colorize(ColorMode::Always, false));
    assert!(should_colorize(ColorMode::Auto, true));
    assert!(!should_colorize(ColorMode::Auto, false));
}

#[test]
fn no_color_output_has_no_escape_sequences() {
    let path = "./a.py".to_string();
    let file = lines(&["foo", "foobar"]);
    let m = matcher("foo", false);
    let report = scan_file(&path, &file, &m, false, OutputMode::Full, false);
    for record in &report.records {
        assert!(!record.contains('\u{1b}'));
    }
}

#[test]
fn colored_output_wraps_each_match_in_bold_red() {
    let path = "./a.py".to_string();
    let file = lines(&["foobar"]);
    let m = matcher("foo", false);
    let report = scan_file(&path, &file, &m, false, OutputMode::Full, true);
    assert_eq!(report.records, vec!["./a.py:1:\u{1b}[1;31mfoo\u{1b}[0mbar"]);
}

#[test]
fn every_match_of_a_line_is_highlighted() {
    let line = "foo x foo".to_string();
    let m = matcher("foo", false);
    let rendered = highlight_line(&line, &m, true);
    assert_eq!(rendered, "\u{1b}[1;31mfoo\u{1b}[0m x \u{1b}[1;31mfoo\u{1b}[0m");
}

#[test]
fn case_folded_matches_highlight_the_original_text() {
    let line = "xFOOy".to_string();
    let m = matcher("foo", true);
    let rendered = highlight_line(&line, &m, true);
    assert_eq!(rendered, "x\u{1b}[1;31mFOO\u{1b}[0my");
}

#[test]
fn highlighting_a_non_matching_line_changes_nothing() {
    let line = "bar".to_string();
    let m = matcher("foo", false);
    assert_eq!(highlight_line(&line, &m, true), "bar");
    let path = "./a.py".to_string();
    let report = scan_file(&path, &lines(&["bar"]), &m, true, OutputMode::Full, true);
    assert_eq!(report.records, vec!["./a.py:1:bar"]);
}

#[test]
fn error_statuses_are_distinct() {
    assert_eq!(PATTERN_ERROR_STATUS, 2);
    assert_ne!(exit_status(false), PATTERN_ERROR_STATUS);
    assert_ne!(exit_status(true), exit_status(false));
}

#[test]
fn an_empty_file_yields_nothing_in_every_mode() {
    let path = "./a.py".to_string();
    let file: Vec<String> = Vec::new();
    let m = matcher("foo", false);
    for mode in [OutputMode::Full, OutputMode::Count, OutputMode::List] {
        let report = scan_file(&path, &file, &m, false, mode, false);
        assert!(report.records.is_empty());
        assert!(!report.found);
    }
}

#[test]
fn an_empty_keyword_matches_every_line() {
    let file = lines(&["foo", "", "bar"]);
    let m = matcher("", false);
    assert_eq!(count_matches(&file, &m, false), 3);
    assert_eq!(count_matches(&file, &m, true), 0);
}

#[test]
fn empty_match_spans_are_painted_empty() {
    let line = "abc".to_string();
    let m = matcher("x*", false);
    let rendered = highlight_line(&line, &m, true);
    assert_eq!(
        rendered,
        "\u{1b}[1;31m\u{1b}[0ma\u{1b}[1;31m\u{1b}[0mb\u{1b}[1;31m\u{1b}[0mc\u{1b}[1;31m\u{1b}[0m"
    );
}

#[test]
fn highlighting_respects_character_boundaries() {
    let line = "h\u{e9}llo foo".to_string();
    let m = matcher("foo", false);
    let rendered = highlight_line(&line, &m, true);
    assert_eq!(rendered, "h\u{e9}llo \u{1b}[1;31mfoo\u{1b}[0m");
    assert_eq!(highlight_line(&line, &m, false), line);
}
