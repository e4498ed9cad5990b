use ggrep::config::{ColorMode, Config, OutputMode};
use ggrep::walk::{entry_qualifies, extension_allowed, MAX_WALK_DEPTH};

#[test]
fn every_listed_extension_is_allowed() {
    for ext in ["cpp", "h", "txt", "html", "php", "c", "css", "json", "py", "js"] {
        assert!(extension_allowed(ext));
    }
}

#[test]
fn other_extensions_are_refused() {
    for ext in ["md", "rs", "pyc", "htm", ""] {
        assert!(!extension_allowed(ext));
    }
}

#[test]
fn the_extension_match_is_case_sensitive() {
    assert!(!extension_allowed("PY"));
    assert!(!extension_allowed("Txt"));
}

#[test]
fn a_markdown_file_never_qualifies() {
    assert!(!entry_qualifies(true, 1, Some("md")));
}

#[test]
fn a_python_file_within_the_bound_qualifies() {
    assert!(entry_qualifies(true, 1, Some("py")));
}

#[test]
fn the_depth_bound_excludes_deep_files() {
    // A file nine directories below the root sits at depth ten of the walk.
    assert!(!entry_qualifies(true, 10, Some("py")));
    // One three directories below sits at depth four.
    assert!(entry_qualifies(true, 4, Some("py")));
    assert!(entry_qualifies(true, MAX_WALK_DEPTH, Some("py")));
    assert!(!entry_qualifies(true, MAX_WALK_DEPTH + 1, Some("py")));
}

#[test]
fn directories_and_extensionless_entries_are_skipped() {
    assert!(!entry_qualifies(false, 1, Some("py")));
    assert!(!entry_qualifies(true, 1, None));
}

#[test]
fn counting_wins_over_listing_and_full_is_the_default() {
    let mut config = Config {
        keyword: "foo".to_string(),
        prefix: ".".to_string(),
        ignore_case: false,
        invert_match: false,
        count: false,
        list_files: false,
        fixed_strings: false,
        word_regexp: false,
        color: ColorMode::Auto,
    };
    assert_eq!(config.output_mode(), OutputMode::Full);
    config.list_files = true;
    assert_eq!(config.output_mode(), OutputMode::List);
    config.count = true;
    assert_eq!(config.output_mode(), OutputMode::Count);
}
