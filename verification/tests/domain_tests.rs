use dev_purge::domain::os::model_path;
use dev_purge::domain::registry;
use dev_purge::domain::config::{matches_any_pattern, PurgeConfig};
use dev_purge::domain::docker::{DockerScanner, ImageListing};
use dev_purge::domain::impls::{
    clean_action, estimate_dir_size, is_scan_candidate, keep_safe_results, success_label,
    summarize_cleanup, try_summarize_cleanup, CleanAction, CleanOutcome, OsSafetyChecker,
    ParallelScanner,
};
use dev_purge::domain::os::{is_protected_entry_name, is_protected_root, is_safe, HomeEnv, Platform};
use dev_purge::domain::patterns::needs_sibling_listing;
use dev_purge::domain::reduce::{
    cargo_build_dir_for_out, is_cargo_profile_dir, is_named, is_out_dir, is_strict_descendant,
    remove_descendants,
};
use dev_purge::domain::safety::{check, display_path_for_humans, is_system_dir, SafetyError};
use dev_purge::domain::size::{estimate_dir_size_bytes, estimate_sizes, SizeError};
use dev_purge::domain::traits::{ArtifactType, CleanupCategory, ScanResult, ScanTier};

fn no_env() -> HomeEnv {
    HomeEnv { home: None, user_profile: None, local_app_data: None, app_data: None }
}

fn home_env(h: &str) -> HomeEnv {
    HomeEnv { home: Some(h.to_string()), user_profile: None, local_app_data: None, app_data: None }
}

fn phys(path: &str, bytes: u64) -> ScanResult {
    ScanResult {
        path: path.to_string(),
        size_bytes: bytes,
        category: CleanupCategory::BuildArtifact,
        artifact_type: ArtifactType::Physical,
    }
}

#[test]
fn safety_check_refuses_home_and_system_directories() {
    assert_eq!(check("/home/u", Some("/home/u"), Platform::Linux), Err(SafetyError::HomeDirectory));
    assert_eq!(check("/home/u/", Some("/home/u"), Platform::Linux), Err(SafetyError::HomeDirectory));
    assert_eq!(check("/", None, Platform::Linux), Err(SafetyError::SystemDirectory));
    assert_eq!(check("/usr/lib", None, Platform::Linux), Err(SafetyError::SystemDirectory));
    assert_eq!(check("/etc", None, Platform::Linux), Err(SafetyError::SystemDirectory));
    assert_eq!(check("/var/tmp", None, Platform::Linux), Err(SafetyError::SystemDirectory));
    assert_eq!(check("/home/u/projects", Some("/home/u"), Platform::Linux), Ok(()));
    assert_eq!(
        check("C:\\Program Files\\App", None, Platform::Windows),
        Err(SafetyError::SystemDirectory)
    );
    assert_eq!(check("C:\\Users\\Me", Some("c:\\users\\me"), Platform::Windows), Err(SafetyError::HomeDirectory));
    assert_eq!(check("C:", None, Platform::Windows), Err(SafetyError::SystemDirectory));
    assert!(is_system_dir("/bin", Platform::MacOs));
    assert!(is_system_dir("/usr", Platform::Linux));
    assert!(!is_system_dir("/home/u/p", Platform::Linux));
    assert!(!is_system_dir("/variant/projects", Platform::Linux));
    assert!(!is_system_dir("/usrdata/app", Platform::Linux));
    assert!(!is_system_dir("/binaries/x", Platform::MacOs));
    assert!(is_system_dir("C:\\Windows\\System32", Platform::Windows));
    assert!(!is_system_dir("C:\\Windowsold\\x", Platform::Windows));
    assert_eq!(display_path_for_humans("a\\b/c"), "a/b/c");
}

#[test]
fn protected_names_by_platform_and_tier() {
    for p in [Platform::Linux, Platform::MacOs, Platform::Windows] {
        for t in [ScanTier::Project, ScanTier::Cache, ScanTier::Deep, ScanTier::Aggressive] {
            assert!(is_protected_entry_name(".git", t, p));
        }
        for n in [".vscode", ".idea", ".cursor", ".github", ".env"] {
            assert!(is_protected_entry_name(n, ScanTier::Project, p), "{}", n);
        }
        assert!(!is_protected_entry_name("target", ScanTier::Project, p));
    }
    assert!(is_protected_entry_name(".vscode", ScanTier::Cache, Platform::Linux));
    for p in [Platform::Linux, Platform::MacOs, Platform::Windows] {
        for t in [ScanTier::Project, ScanTier::Cache, ScanTier::Deep, ScanTier::Aggressive] {
            for n in [".vscode", ".idea", ".cursor", ".gitignore", ".editorconfig", ".env", ".env.local"] {
                assert!(is_protected_entry_name(n, t, p), "{} {:?} {:?}", n, t, p);
            }
        }
    }
    assert!(is_protected_entry_name(".cargo", ScanTier::Project, Platform::Linux));
    assert!(!is_protected_entry_name(".cargo", ScanTier::Cache, Platform::Linux));
    assert!(!is_protected_entry_name(".config", ScanTier::Deep, Platform::Linux));
}

#[test]
fn os_safety_of_paths() {
    let env = home_env("/home/u");
    assert!(is_safe("/home/u/p/target", ScanTier::Project, Platform::Linux, &env));
    assert!(!is_safe("/home/u/p/.git/objects", ScanTier::Aggressive, Platform::Linux, &env));
    assert!(!is_safe("/usr/lib/x", ScanTier::Aggressive, Platform::Linux, &env));
    let mac_env = home_env("/Users/u");
    assert!(!is_protected_root("/Users/u/projects/app/target", ScanTier::Project, Platform::MacOs, &mac_env));
    assert!(is_protected_root("/", ScanTier::Project, Platform::MacOs, &mac_env));
    assert!(is_safe("/Users/u/projects/app/target", ScanTier::Project, Platform::MacOs, &mac_env));
    for n in ["proj/.gitignore", "proj/.editorconfig", "proj/.env.local"] {
        assert!(!is_safe(n, ScanTier::Project, Platform::MacOs, &mac_env), "{}", n);
    }
    assert!(!is_safe("/home/u/p/.env", ScanTier::Aggressive, Platform::Linux, &env));
    assert!(!is_safe("/home/u/p/.idea/x", ScanTier::Deep, Platform::Linux, &env));
    assert!(!is_safe("C:\\Windows\\System32", ScanTier::Project, Platform::Linux, &env));
    assert!(!is_safe("c:/program files/app", ScanTier::Aggressive, Platform::MacOs, &mac_env));
    let checker = OsSafetyChecker { platform: Platform::Linux, env: env.clone() };
    assert!(checker.is_safe_at("/home/u/p/node_modules", ScanTier::Project));
    assert!(!checker.is_safe_at("/home/u/p/.vscode/x", ScanTier::Project));
}

#[test]
fn registry_patterns_grow_with_tier() {
    let project = PurgeConfig::for_tier(ScanTier::Project);
    let aggressive = PurgeConfig::for_tier(ScanTier::Aggressive);
    assert!(project.patterns().len() <= aggressive.patterns().len());
    assert!(project.patterns().len() > 0);
    assert_eq!(PurgeConfig::hardcoded().patterns().len(), project.patterns().len());
    let none: Vec<String> = vec![];
    assert!(matches_any_pattern("target", project.patterns(), &none));
    assert!(matches_any_pattern("node_modules", project.patterns(), &none));
    assert!(!matches_any_pattern("src", project.patterns(), &none));
}

#[test]
fn guarded_patterns_need_their_marker() {
    let all = PurgeConfig::for_tier(ScanTier::Aggressive);
    assert!(needs_sibling_listing("bin", all.patterns()));
    let with_proj = vec!["App.csproj".to_string(), "bin".to_string()];
    let without = vec!["main.rs".to_string()];
    assert!(matches_any_pattern("bin", all.patterns(), &with_proj));
    assert!(!matches_any_pattern("bin", all.patterns(), &without));
    assert!(is_scan_candidate(true, "bin", all.patterns(), &with_proj));
    assert!(!is_scan_candidate(false, "bin", all.patterns(), &with_proj));
}

#[test]
fn cargo_layout_helpers() {
    assert!(is_named("/a/OUT", "out"));
    assert!(is_out_dir("/t/target/debug/build/c/out"));
    assert!(is_cargo_profile_dir("/t/target/RELEASE"));
    assert!(!is_cargo_profile_dir("/t/target/profile"));
    assert_eq!(
        cargo_build_dir_for_out("/t/target/debug/build/c/out"),
        Some("/t/target/debug/build".to_string())
    );
    assert_eq!(
        cargo_build_dir_for_out("/t/other/debug/build/c/out"),
        Some("/t/other/debug/build".to_string())
    );
    assert_eq!(cargo_build_dir_for_out("/t/other/x/build/c/out"), None);
    assert!(is_strict_descendant("/a/b/c", "/a/b"));
    assert!(!is_strict_descendant("/a/b", "/a/b"));
    assert!(!is_strict_descendant("/a/bc", "/a/b"));
}

#[test]
fn nested_results_are_removed() {
    let out = remove_descendants(vec![phys("/p/a/target/debug", 5), phys("/p/a/target", 9), phys("/p/b", 1)]);
    let paths: Vec<&str> = out.iter().map(|r| r.path.as_str()).collect();
    assert_eq!(paths, vec!["/p/a/target", "/p/b"]);
}

#[test]
fn docker_listings_become_results() {
    let images = vec![
        ImageListing { id: "sha256:a".to_string(), size: 100 },
        ImageListing { id: "sha256:b".to_string(), size: 0 },
    ];
    let containers = vec![Some("c1".to_string()), None];
    let rs = DockerScanner.results_from(Some(images), Some(containers));
    assert_eq!(rs.len(), 2);
    assert_eq!(rs[0].path, "sha256:a");
    assert_eq!(rs[0].size_bytes, 100);
    assert_eq!(rs[0].category, CleanupCategory::Cache);
    assert!(matches!(&rs[0].artifact_type, ArtifactType::DockerImage(id) if id == "sha256:a"));
    assert_eq!(rs[1].size_bytes, 0);
    assert_eq!(rs[1].category, CleanupCategory::Temp);
    assert!(matches!(&rs[1].artifact_type, ArtifactType::DockerContainer(id) if id == "c1"));
    assert_eq!(DockerScanner.results_from(None, None).len(), 0);
}

#[test]
fn safety_filter_keeps_docker_results() {
    let checker = OsSafetyChecker { platform: Platform::Linux, env: home_env("/home/u") };
    let docker = ScanResult {
        path: ".git".to_string(),
        size_bytes: 1,
        category: CleanupCategory::Cache,
        artifact_type: ArtifactType::DockerImage("x".to_string()),
    };
    let rs = vec![phys("/home/u/p/target", 3), phys("/home/u/p/.git", 2), docker];
    let kept = keep_safe_results(rs, &checker, ScanTier::Project);
    let paths: Vec<&str> = kept.iter().map(|r| r.path.as_str()).collect();
    assert_eq!(paths, vec!["/home/u/p/target", ".git"]);
}

#[test]
fn cleaning_actions_and_labels() {
    let p = phys("/x", 1);
    assert!(matches!(clean_action(&p, true, true), CleanAction::Report));
    assert!(matches!(clean_action(&p, false, false), CleanAction::MoveToTrash));
    assert!(matches!(clean_action(&p, false, true), CleanAction::DeletePermanently));
    let img = ScanResult {
        path: "i".to_string(),
        size_bytes: 1,
        category: CleanupCategory::Cache,
        artifact_type: ArtifactType::DockerImage("i".to_string()),
    };
    assert!(matches!(clean_action(&img, false, false), CleanAction::RemoveDockerImage(id) if id == "i"));
    assert_eq!(success_label(&ArtifactType::Physical, false), "Moved to trash");
    assert_eq!(success_label(&ArtifactType::Physical, true), "Permanently deleted");
    assert_eq!(success_label(&ArtifactType::DockerVolume("v".to_string()), true), "Cleaned");
}

#[test]
fn cleanup_statistics() {
    let rs = vec![phys("/a", 10), phys("/b", 20), phys("/c", 30)];
    let outcomes = vec![CleanOutcome::Cleaned, CleanOutcome::Failed("boom".to_string()), CleanOutcome::Cleaned];
    let stats = summarize_cleanup(&rs, outcomes);
    assert_eq!(stats.total_bytes_freed, 40);
    assert_eq!(stats.items_deleted, 2);
    assert_eq!(stats.errors, vec!["boom".to_string()]);
    let huge = vec![phys("/a", u64::MAX), phys("/b", 1)];
    assert!(try_summarize_cleanup(&huge, vec![CleanOutcome::Cleaned, CleanOutcome::Cleaned]).is_none());
}

#[test]
fn scanner_results_and_order() {
    let scanner = ParallelScanner::new(PurgeConfig::hardcoded());
    let r = scanner.candidate_result("/p/target".to_string(), 7);
    assert_eq!(r.category, CleanupCategory::BuildArtifact);
    assert!(matches!(r.artifact_type, ArtifactType::Physical));
    let ordered = scanner.order_results(vec![phys("/a", 1), phys("/b", 5), phys("/c", 1)]);
    let paths: Vec<&str> = ordered.iter().map(|r| r.path.as_str()).collect();
    assert_eq!(paths, vec!["/b", "/a", "/c"]);
}

#[test]
fn sizes_of_missing_directories() {
    assert_eq!(estimate_dir_size_bytes("/definitely/not/here/x"), 0);
    assert_eq!(estimate_dir_size("/definitely/not/here/x"), Err(SizeError::Unreadable));
    let found = estimate_sizes(&vec!["/definitely/not/here/x".to_string()]);
    assert_eq!(found.len(), 0);
}

#[test]
fn secrets_beyond_the_local_env_files_are_released_at_aggressive() {
    assert!(registry::is_protected_entry_name(".env.production", ScanTier::Deep, Platform::Linux));
    assert!(!registry::is_protected_entry_name(".env.production", ScanTier::Aggressive, Platform::Linux));
    assert!(registry::is_protected_entry_name(".env", ScanTier::Aggressive, Platform::Linux));
    assert!(registry::is_protected_entry_name(".env.local", ScanTier::Aggressive, Platform::Windows));
}

#[test]
fn windows_paths_are_read_with_both_separators() {
    assert_eq!(model_path("C:\\p\\target", Platform::Windows), "C:/p/target");
    assert_eq!(model_path("a\\b", Platform::Linux), "a\\b");
    let parent = phys(&model_path("C:\\p\\target", Platform::Windows), 9);
    let child = phys(&model_path("C:\\p\\target\\debug", Platform::Windows), 5);
    let out = remove_descendants(vec![child, parent]);
    assert_eq!(out.len(), 1);
    assert_eq!(out[0].path, "C:/p/target");
}
