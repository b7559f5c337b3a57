use dev_purge::cli::{parse_mode, Mode, UsageError};
use dev_purge::domain::delete::tally_deletions;
use dev_purge::quick::config::{is_protected_entry_name, matches_any_pattern, PatternKind, PurgeConfig};
use dev_purge::quick::scan::{scan_filter_entry, sort_dedup_paths, Visit};
use dev_purge::sort::sort_stable;
use dev_purge::types::{DeleteStats, Finding};
use dev_purge::ui::confirm::{is_aggressive_consent, is_confirmation};

#[test]
fn quick_config_has_the_fixed_patterns() {
    let c = PurgeConfig::hardcoded();
    let ps = c.patterns();
    assert_eq!(ps.len(), 16);
    assert_eq!(ps[0].text, "target");
    assert!(matches!(ps[13].kind, PatternKind::Prefix));
    assert_eq!(ps[13].text, "cmake-build-");
    assert_eq!(ps[15].text, "zig-out");
}

#[test]
fn quick_patterns_match_exact_and_prefix_names() {
    let c = PurgeConfig::hardcoded();
    assert!(matches_any_pattern(Some("node_modules"), c.patterns()));
    assert!(matches_any_pattern(Some("cmake-build-debug"), c.patterns()));
    assert!(!matches_any_pattern(Some("targets"), c.patterns()));
    assert!(!matches_any_pattern(Some("src"), c.patterns()));
    assert!(!matches_any_pattern(None, c.patterns()));
}

#[test]
fn quick_protected_names() {
    for n in [".git", ".vscode", ".idea", ".cursor", ".env", ".env.local", ".gitignore", ".editorconfig", ".dockerignore", ".github"] {
        assert!(is_protected_entry_name(Some(n)), "{}", n);
    }
    assert!(!is_protected_entry_name(Some(".gitx")));
    assert!(!is_protected_entry_name(Some("target")));
    assert!(!is_protected_entry_name(None));
}

#[test]
fn quick_walk_decisions() {
    let c = PurgeConfig::hardcoded();
    assert_eq!(scan_filter_entry(Some(".git"), true, c.patterns()), Visit::Skip);
    assert_eq!(scan_filter_entry(Some("target"), true, c.patterns()), Visit::Collect);
    assert_eq!(scan_filter_entry(Some("target"), false, c.patterns()), Visit::Descend);
    assert_eq!(scan_filter_entry(Some("src"), true, c.patterns()), Visit::Descend);
    assert_eq!(scan_filter_entry(None, true, c.patterns()), Visit::Descend);
}

#[test]
fn candidates_are_sorted_and_deduplicated() {
    let paths = vec![
        "/p/b/target".to_string(),
        "/p/a/node_modules".to_string(),
        "/p/b/target".to_string(),
        "/p/a".to_string(),
        "/p/b//target".to_string(),
    ];
    let out = sort_dedup_paths(paths);
    assert_eq!(out, vec!["/p/a".to_string(), "/p/a/node_modules".to_string(), "/p/b/target".to_string()]);
}

#[test]
fn findings_sort_largest_first_and_stably() {
    let fs = vec![
        Finding { path: "a".to_string(), bytes: 5 },
        Finding { path: "b".to_string(), bytes: 9 },
        Finding { path: "c".to_string(), bytes: 5 },
    ];
    let sorted = sort_stable(fs, false);
    let names: Vec<&str> = sorted.iter().map(|f| f.path.as_str()).collect();
    assert_eq!(names, vec!["b", "a", "c"]);
}

#[test]
fn deletion_tally_counts_bytes_and_errors() {
    let fs = vec![
        Finding { path: "a".to_string(), bytes: 10 },
        Finding { path: "b".to_string(), bytes: 20 },
        Finding { path: "c".to_string(), bytes: u64::MAX },
    ];
    assert_eq!(tally_deletions(&fs, &[true, false, false]), DeleteStats { recovered_bytes: 10, errors: 2 });
    assert_eq!(tally_deletions(&fs, &[true, true, true]), DeleteStats { recovered_bytes: u64::MAX, errors: 0 });
}

#[test]
fn prompts_accept_only_their_answers() {
    assert!(is_confirmation("y\n"));
    assert!(is_confirmation("  Y  "));
    assert!(!is_confirmation("yes"));
    assert!(!is_confirmation(""));
    assert!(is_aggressive_consent("yes i understand\n"));
    assert!(!is_aggressive_consent("YES I UNDERSTAND"));
    assert!(!is_aggressive_consent("y"));
}

#[test]
fn quick_command_line() {
    assert_eq!(parse_mode(&vec![]), Ok(Mode::Default));
    assert_eq!(parse_mode(&vec!["--check".to_string()]), Ok(Mode::Check));
    assert_eq!(parse_mode(&vec!["--nope".to_string()]), Err(UsageError));
    assert_eq!(parse_mode(&vec!["--check".to_string(), "x".to_string()]), Err(UsageError));
}
