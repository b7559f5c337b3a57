use dev_purge::domain::traits::ScanTier;
use dev_purge::ui::summary::{mode_line, summary_line, title_line};
use dev_purge::types::Finding;
use dev_purge::ui::preview::{
    display_path_relative, error_noun, format_bytes, is_dimmed, item_noun, plan_preview, size_label,
    total_bytes, truncate_end, try_total_bytes, DISPLAY_LIMIT, MAX_PATH_WIDTH,
};

fn float_format(bytes: u64) -> String {
    const KB: f64 = 1024.0;
    const MB: f64 = KB * 1024.0;
    const GB: f64 = MB * 1024.0;
    let b = bytes as f64;
    if b >= GB {
        format!("{:.1} GB", b / GB)
    } else if b >= MB {
        format!("{:.0} MB", b / MB)
    } else if b >= KB {
        format!("{:.0} KB", b / KB)
    } else {
        format!("{} B", bytes)
    }
}

fn finding(path: &str, bytes: u64) -> Finding {
    Finding { path: path.to_string(), bytes }
}

#[test]
fn format_bytes_picks_the_unit() {
    assert_eq!(format_bytes(0), "0 B");
    assert_eq!(format_bytes(1023), "1023 B");
    assert_eq!(format_bytes(1024), "1 KB");
    assert_eq!(format_bytes(5 * 1024 * 1024), "5 MB");
    assert_eq!(format_bytes(1024 * 1024 * 1024), "1.0 GB");
    assert_eq!(format_bytes(3 * 1024 * 1024 * 1024 / 2), "1.5 GB");
}

#[test]
fn format_bytes_rounds_like_float_formatting() {
    // Halfway cases: 1.5 KB, 2.5 KB, 1.5 MB, 2.5 MB, 1.25 GB, 1.35 GB-ish.
    let samples: Vec<u64> = vec![
        1536,
        2560,
        1024 * 1024 - 1,
        3 * 512 * 1024,
        5 * 512 * 1024,
        5 * 256 * 1024 * 1024,
        1024 * 1024 * 1024 - 1,
        (1u64 << 53) + 1,
        (1u64 << 53) + 3,
        (1u64 << 60) + 12345,
        u64::MAX,
        u64::MAX - 1024,
        999_999_999_999,
    ];
    for b in samples {
        assert_eq!(format_bytes(b), float_format(b), "bytes = {}", b);
    }
    let mut x: u64 = 1;
    while x < u64::MAX / 3 {
        for d in [0u64, 1, 511, 512, 513] {
            let b = x + d;
            assert_eq!(format_bytes(b), float_format(b), "bytes = {}", b);
        }
        x = x * 3 + 7;
    }
}

#[test]
fn size_labels_and_dimming() {
    assert_eq!(size_label(500 * 1024 * 1024), "");
    assert_eq!(size_label(500 * 1024 * 1024 + 1), "big win");
    assert!(is_dimmed(50 * 1024 * 1024 - 1));
    assert!(!is_dimmed(50 * 1024 * 1024));
    assert_eq!(item_noun(1), "item");
    assert_eq!(item_noun(2), "items");
    assert_eq!(error_noun(1), "error");
    assert_eq!(error_noun(0), "errors");
}

#[test]
fn totals_and_overflow() {
    let fs = vec![finding("a", 10), finding("b", 32)];
    assert_eq!(total_bytes(&fs), 42);
    assert_eq!(try_total_bytes(&fs), Some(42));
    let big = vec![finding("a", u64::MAX), finding("b", 1)];
    assert_eq!(try_total_bytes(&big), None);
}

#[test]
fn truncate_end_cuts_with_an_ellipsis() {
    assert_eq!(truncate_end("abc", 3), "abc");
    assert_eq!(truncate_end("abcdef", 4), "abc…");
    assert_eq!(truncate_end("abcdef", 1), "…");
    assert_eq!(truncate_end("abcdef", 0), "…");
}

#[test]
fn display_paths_are_relative_to_the_root() {
    assert_eq!(display_path_relative("/home/u/p", "/home/u/p/app/target"), "./app/target");
    assert_eq!(display_path_relative("/home/u/p", "/home/u/p"), "./.");
    assert_eq!(display_path_relative("/home/u/p", "/elsewhere/x"), ".//elsewhere/x");
    assert_eq!(display_path_relative("/r", "./a\\b"), "./a/b");
}

#[test]
fn preview_lists_the_first_findings() {
    let mut fs = Vec::new();
    for i in 0..25u64 {
        fs.push(finding(&format!("/r/p{}", i), 100 - i));
    }
    let plan = plan_preview("/r", &fs, DISPLAY_LIMIT);
    assert_eq!(plan.rows.len(), 20);
    assert_eq!(plan.rows[0].path, "./p0");
    assert_eq!(plan.rows[0].bytes, 100);
    assert_eq!(plan.width, 5);
    assert_eq!(plan.bar_max, 100);
    assert_eq!(plan.hidden_count, 5);
    assert_eq!(plan.hidden_bytes, 80 + 79 + 78 + 77 + 76);

    let long = vec![finding(&format!("/r/{}", "x".repeat(80)), 0)];
    let plan = plan_preview("/r", &long, DISPLAY_LIMIT);
    assert_eq!(plan.width, MAX_PATH_WIDTH);
    assert_eq!(plan.bar_max, 1);
    assert_eq!(plan.hidden_count, 0);
}

#[test]
fn framing_lines() {
    assert_eq!(summary_line(1024, 0), "✓ Recovered 1 KB");
    assert_eq!(summary_line(3 * 1024 * 1024, 1), "✓ Recovered 3 MB  (1 error — see above)");
    assert_eq!(summary_line(0, 12), "✓ Recovered 0 B  (12 errors — see above)");
    assert_eq!(mode_line(ScanTier::Project), "🔍 Mode: Project Caches (safe)");
    assert_eq!(mode_line(ScanTier::Aggressive), "🔍 Mode: AGGRESSIVE (System Caches + Docker)");
    assert_eq!(title_line(), "🛡️  DEV-PURGE:  Smart Cleanup");
}
