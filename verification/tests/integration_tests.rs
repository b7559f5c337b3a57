use dev_purge::domain::default_tier::DefaultTierSafety;
use dev_purge::domain::impls::OsSafetyChecker;
use dev_purge::domain::os::{HomeEnv, Platform};

fn no_env() -> HomeEnv {
    HomeEnv { home: None, user_profile: None, local_app_data: None, app_data: None }
}

#[test]
fn test_os_safety_checker() {
    for platform in [Platform::Linux, Platform::MacOs, Platform::Windows] {
        let checker = OsSafetyChecker { platform, env: no_env() };

        // Safe paths
        assert!(checker.is_safe("target"));
        assert!(checker.is_safe("node_modules"));

        // Protected paths
        assert!(!checker.is_safe(".git"));
        assert!(!checker.is_safe(".vscode"));
        assert!(!checker.is_safe("C:\\Windows\\System32"));
    }
}
