//! The registry of protected paths: one table of rules, each tagged with
//! the operating systems it applies to.
//!
//! Each rule protects either a root (everything at or below it) or a
//! directory name (wherever it occurs).  Which rules are in force depends on
//! the scan tier through [`category_protected`].
use vstd::prelude::*;
use crate::domain::os::{
    HomeEnv, Platform, ProtectedPathCategory, category_protected, is_category_protected,
    platform_components, platform_components_exec, under_any_join, under_any_join_exec,
};
use crate::domain::os::unix::{home_subdirs, home_subdirs_spec};
use crate::domain::os::windows::{profile_subdirs, profile_subdirs_spec};
use crate::domain::traits::{ScanTier, tier_rank};
use crate::path::{comps_prefix, comps_view};
use crate::text::{
    chars_eq, chars_eq_str, chars_of, contains_str, has_prefix, is_prefix_of, lowercase, occurs_in,
    replace_char, replace_char_exec, string_of, to_lowercase,
};

verus! {

/// Operating systems a rule applies to.
#[derive(Clone, Copy, Debug, PartialEq, Eq, Structural)]
pub enum OsFamily {
    Any,
    Unix,
    Windows,
    MacOS,
}

/// One protection rule of the registry.
#[derive(Clone, Copy, Debug)]
pub struct ProtectedPathRule {
    pub category: ProtectedPathCategory,
    pub os: OsFamily,
    pub root_prefix: Option<&'static str>,
    pub dir_name: Option<&'static str>,
    pub description: &'static str,
}

/// The registry of protected paths.
pub open spec fn protected_path_rules_spec() -> Seq<ProtectedPathRule> {
    seq![
        ProtectedPathRule {
            category: ProtectedPathCategory::System,
            os: OsFamily::Any,
            root_prefix: Some("/"),
            dir_name: None,
            description: "Unix root filesystem",
        },
        ProtectedPathRule {
            category: ProtectedPathCategory::System,
            os: OsFamily::Unix,
            root_prefix: Some("/usr"),
            dir_name: None,
            description: "Unix system binaries and libraries",
        },
        ProtectedPathRule {
            category: ProtectedPathCategory::System,
            os: OsFamily::Unix,
            root_prefix: Some("/etc"),
            dir_name: None,
            description: "Unix system configuration",
        },
        ProtectedPathRule {
            category: ProtectedPathCategory::System,
            os: OsFamily::Unix,
            root_prefix: Some("/var"),
            dir_name: None,
            description: "Unix variable data and caches",
        },
        ProtectedPathRule {
            category: ProtectedPathCategory::System,
            os: OsFamily::Unix,
            root_prefix: Some("/bin"),
            dir_name: None,
            description: "Unix system binaries",
        },
        ProtectedPathRule {
            category: ProtectedPathCategory::System,
            os: OsFamily::Unix,
            root_prefix: Some("/sbin"),
            dir_name: None,
            description: "Unix system binaries",
        },
        ProtectedPathRule {
            category: ProtectedPathCategory::System,
            os: OsFamily::Unix,
            root_prefix: Some("/lib"),
            dir_name: None,
            description: "Unix system libraries",
        },
        ProtectedPathRule {
            category: ProtectedPathCategory::System,
            os: OsFamily::MacOS,
            root_prefix: Some("/Applications"),
            dir_name: None,
            description: "macOS application bundles",
        },
        ProtectedPathRule {
            category: ProtectedPathCategory::System,
            os: OsFamily::MacOS,
            root_prefix: Some("/Library"),
            dir_name: None,
            description: "macOS system libraries and caches",
        },
        ProtectedPathRule {
            category: ProtectedPathCategory::System,
            os: OsFamily::Windows,
            root_prefix: Some("c:\\windows"),
            dir_name: None,
            description: "Windows system directory",
        },
        ProtectedPathRule {
            category: ProtectedPathCategory::System,
            os: OsFamily::Windows,
            root_prefix: Some("c:\\program files"),
            dir_name: None,
            description: "Windows program files",
        },
        ProtectedPathRule {
            category: ProtectedPathCategory::System,
            os: OsFamily::Windows,
            root_prefix: Some("c:\\program files (x86)"),
            dir_name: None,
            description: "Windows program files x86",
        },
        ProtectedPathRule {
            category: ProtectedPathCategory::System,
            os: OsFamily::Windows,
            root_prefix: None,
            dir_name: Some("Programs"),
            description: "Windows programs installation",
        },
        ProtectedPathRule {
            category: ProtectedPathCategory::ProjectMetadata,
            os: OsFamily::Any,
            root_prefix: None,
            dir_name: Some(".vscode"),
            description: "VS Code settings",
        },
        ProtectedPathRule {
            category: ProtectedPathCategory::IdeExtension,
            os: OsFamily::Any,
            root_prefix: None,
            dir_name: Some("extensions"),
            description: "IDE extensions",
        },
        ProtectedPathRule {
            category: ProtectedPathCategory::ProjectMetadata,
            os: OsFamily::Any,
            root_prefix: None,
            dir_name: Some(".idea"),
            description: "JetBrains IDE settings",
        },
        ProtectedPathRule {
            category: ProtectedPathCategory::ProjectMetadata,
            os: OsFamily::Any,
            root_prefix: None,
            dir_name: Some(".cursor"),
            description: "Cursor IDE settings",
        },
        ProtectedPathRule {
            category: ProtectedPathCategory::IdeConfig,
            os: OsFamily::Any,
            root_prefix: None,
            dir_name: Some(".config"),
            description: "User application configuration",
        },
        ProtectedPathRule {
            category: ProtectedPathCategory::IdeConfig,
            os: OsFamily::Unix,
            root_prefix: None,
            dir_name: Some(".cache"),
            description: "User cache directory (Linux)",
        },
        ProtectedPathRule {
            category: ProtectedPathCategory::IdeConfig,
            os: OsFamily::MacOS,
            root_prefix: None,
            dir_name: Some("Library"),
            description: "macOS user library",
        },
        ProtectedPathRule {
            category: ProtectedPathCategory::IdeConfig,
            os: OsFamily::Windows,
            root_prefix: None,
            dir_name: Some("AppData"),
            description: "Windows app data",
        },
        ProtectedPathRule {
            category: ProtectedPathCategory::ProjectMetadata,
            os: OsFamily::Any,
            root_prefix: None,
            dir_name: Some(".git"),
            description: "Git repository metadata",
        },
        ProtectedPathRule {
            category: ProtectedPathCategory::ProjectMetadata,
            os: OsFamily::Any,
            root_prefix: None,
            dir_name: Some(".github"),
            description: "GitHub workflow metadata",
        },
        ProtectedPathRule {
            category: ProtectedPathCategory::ProjectMetadata,
            os: OsFamily::Any,
            root_prefix: None,
            dir_name: Some(".gitignore"),
            description: "Git ignore file",
        },
        ProtectedPathRule {
            category: ProtectedPathCategory::ProjectMetadata,
            os: OsFamily::Any,
            root_prefix: None,
            dir_name: Some(".editorconfig"),
            description: "Editor configuration",
        },
        ProtectedPathRule {
            category: ProtectedPathCategory::ProjectMetadata,
            os: OsFamily::Any,
            root_prefix: None,
            dir_name: Some(".env"),
            description: "Environment variables and secrets",
        },
        ProtectedPathRule {
            category: ProtectedPathCategory::ProjectMetadata,
            os: OsFamily::Any,
            root_prefix: None,
            dir_name: Some(".env.local"),
            description: "Local environment variables",
        },
        ProtectedPathRule {
            category: ProtectedPathCategory::SecretConfig,
            os: OsFamily::Any,
            root_prefix: None,
            dir_name: Some(".env.production"),
            description: "Production secrets",
        },
        ProtectedPathRule {
            category: ProtectedPathCategory::ToolBinary,
            os: OsFamily::Any,
            root_prefix: None,
            dir_name: Some(".cargo"),
            description: "Cargo configuration and binaries",
        },
        ProtectedPathRule {
            category: ProtectedPathCategory::ToolBinary,
            os: OsFamily::Any,
            root_prefix: None,
            dir_name: Some(".npm-global"),
            description: "Global npm binaries",
        },
        ProtectedPathRule {
            category: ProtectedPathCategory::ToolBinary,
            os: OsFamily::Any,
            root_prefix: None,
            dir_name: Some(".local"),
            description: "Local user binaries",
        },
        ProtectedPathRule {
            category: ProtectedPathCategory::ToolBinary,
            os: OsFamily::Any,
            root_prefix: None,
            dir_name: Some("go"),
            description: "Go installation directory",
        },
        ProtectedPathRule {
            category: ProtectedPathCategory::ToolBinary,
            os: OsFamily::Any,
            root_prefix: None,
            dir_name: Some(".gradle"),
            description: "Gradle configuration",
        },
        ProtectedPathRule {
            category: ProtectedPathCategory::ToolBinary,
            os: OsFamily::Any,
            root_prefix: None,
            dir_name: Some(".m2"),
            description: "Maven repository",
        },
        ProtectedPathRule {
            category: ProtectedPathCategory::ToolCache,
            os: OsFamily::Any,
            root_prefix: None,
            dir_name: Some(".cargo"),
            description: "Cargo registry cache",
        },
        ProtectedPathRule {
            category: ProtectedPathCategory::ToolCache,
            os: OsFamily::Any,
            root_prefix: None,
            dir_name: Some(".npm"),
            description: "npm cache",
        },
        ProtectedPathRule {
            category: ProtectedPathCategory::ToolCache,
            os: OsFamily::Any,
            root_prefix: None,
            dir_name: Some(".gradle"),
            description: "Gradle caches",
        },
        ProtectedPathRule {
            category: ProtectedPathCategory::ToolCache,
            os: OsFamily::Any,
            root_prefix: None,
            dir_name: Some(".m2"),
            description: "Maven local repository",
        },
    ]
}

/// The registry of protected paths.
pub fn protected_path_rules() -> (r: Vec<ProtectedPathRule>)
    ensures
        r@ == protected_path_rules_spec(),
{
    vec![
        ProtectedPathRule {
            category: ProtectedPathCategory::System,
            os: OsFamily::Any,
            root_prefix: Some("/"),
            dir_name: None,
            description: "Unix root filesystem",
        },
        ProtectedPathRule {
            category: ProtectedPathCategory::System,
            os: OsFamily::Unix,
            root_prefix: Some("/usr"),
            dir_name: None,
            description: "Unix system binaries and libraries",
        },
        ProtectedPathRule {
            category: ProtectedPathCategory::System,
            os: OsFamily::Unix,
            root_prefix: Some("/etc"),
            dir_name: None,
            description: "Unix system configuration",
        },
        ProtectedPathRule {
            category: ProtectedPathCategory::System,
            os: OsFamily::Unix,
            root_prefix: Some("/var"),
            dir_name: None,
            description: "Unix variable data and caches",
        },
        ProtectedPathRule {
            category: ProtectedPathCategory::System,
            os: OsFamily::Unix,
            root_prefix: Some("/bin"),
            dir_name: None,
            description: "Unix system binaries",
        },
        ProtectedPathRule {
            category: ProtectedPathCategory::System,
            os: OsFamily::Unix,
            root_prefix: Some("/sbin"),
            dir_name: None,
            description: "Unix system binaries",
        },
        ProtectedPathRule {
            category: ProtectedPathCategory::System,
            os: OsFamily::Unix,
            root_prefix: Some("/lib"),
            dir_name: None,
            description: "Unix system libraries",
        },
        ProtectedPathRule {
            category: ProtectedPathCategory::System,
            os: OsFamily::MacOS,
            root_prefix: Some("/Applications"),
            dir_name: None,
            description: "macOS application bundles",
        },
        ProtectedPathRule {
            category: ProtectedPathCategory::System,
            os: OsFamily::MacOS,
            root_prefix: Some("/Library"),
            dir_name: None,
            description: "macOS system libraries and caches",
        },
        ProtectedPathRule {
            category: ProtectedPathCategory::System,
            os: OsFamily::Windows,
            root_prefix: Some("c:\\windows"),
            dir_name: None,
            description: "Windows system directory",
        },
        ProtectedPathRule {
            category: ProtectedPathCategory::System,
            os: OsFamily::Windows,
            root_prefix: Some("c:\\program files"),
            dir_name: None,
            description: "Windows program files",
        },
        ProtectedPathRule {
            category: ProtectedPathCategory::System,
            os: OsFamily::Windows,
            root_prefix: Some("c:\\program files (x86)"),
            dir_name: None,
            description: "Windows program files x86",
        },
        ProtectedPathRule {
            category: ProtectedPathCategory::System,
            os: OsFamily::Windows,
            root_prefix: None,
            dir_name: Some("Programs"),
            description: "Windows programs installation",
        },
        ProtectedPathRule {
            category: ProtectedPathCategory::ProjectMetadata,
            os: OsFamily::Any,
            root_prefix: None,
            dir_name: Some(".vscode"),
            description: "VS Code settings",
        },
        ProtectedPathRule {
            category: ProtectedPathCategory::IdeExtension,
            os: OsFamily::Any,
            root_prefix: None,
            dir_name: Some("extensions"),
            description: "IDE extensions",
        },
        ProtectedPathRule {
            category: ProtectedPathCategory::ProjectMetadata,
            os: OsFamily::Any,
            root_prefix: None,
            dir_name: Some(".idea"),
            description: "JetBrains IDE settings",
        },
        ProtectedPathRule {
            category: ProtectedPathCategory::ProjectMetadata,
            os: OsFamily::Any,
            root_prefix: None,
            dir_name: Some(".cursor"),
            description: "Cursor IDE settings",
        },
        ProtectedPathRule {
            category: ProtectedPathCategory::IdeConfig,
            os: OsFamily::Any,
            root_prefix: None,
            dir_name: Some(".config"),
            description: "User application configuration",
        },
        ProtectedPathRule {
            category: ProtectedPathCategory::IdeConfig,
            os: OsFamily::Unix,
            root_prefix: None,
            dir_name: Some(".cache"),
            description: "User cache directory (Linux)",
        },
        ProtectedPathRule {
            category: ProtectedPathCategory::IdeConfig,
            os: OsFamily::MacOS,
            root_prefix: None,
            dir_name: Some("Library"),
            description: "macOS user library",
        },
        ProtectedPathRule {
            category: ProtectedPathCategory::IdeConfig,
            os: OsFamily::Windows,
            root_prefix: None,
            dir_name: Some("AppData"),
            description: "Windows app data",
        },
        ProtectedPathRule {
            category: ProtectedPathCategory::ProjectMetadata,
            os: OsFamily::Any,
            root_prefix: None,
            dir_name: Some(".git"),
            description: "Git repository metadata",
        },
        ProtectedPathRule {
            category: ProtectedPathCategory::ProjectMetadata,
            os: OsFamily::Any,
            root_prefix: None,
            dir_name: Some(".github"),
            description: "GitHub workflow metadata",
        },
        ProtectedPathRule {
            category: ProtectedPathCategory::ProjectMetadata,
            os: OsFamily::Any,
            root_prefix: None,
            dir_name: Some(".gitignore"),
            description: "Git ignore file",
        },
        ProtectedPathRule {
            category: ProtectedPathCategory::ProjectMetadata,
            os: OsFamily::Any,
            root_prefix: None,
            dir_name: Some(".editorconfig"),
            description: "Editor configuration",
        },
        ProtectedPathRule {
            category: ProtectedPathCategory::ProjectMetadata,
            os: OsFamily::Any,
            root_prefix: None,
            dir_name: Some(".env"),
            description: "Environment variables and secrets",
        },
        ProtectedPathRule {
            category: ProtectedPathCategory::ProjectMetadata,
            os: OsFamily::Any,
            root_prefix: None,
            dir_name: Some(".env.local"),
            description: "Local environment variables",
        },
        ProtectedPathRule {
            category: ProtectedPathCategory::SecretConfig,
            os: OsFamily::Any,
            root_prefix: None,
            dir_name: Some(".env.production"),
            description: "Production secrets",
        },
        ProtectedPathRule {
            category: ProtectedPathCategory::ToolBinary,
            os: OsFamily::Any,
            root_prefix: None,
            dir_name: Some(".cargo"),
            description: "Cargo configuration and binaries",
        },
        ProtectedPathRule {
            category: ProtectedPathCategory::ToolBinary,
            os: OsFamily::Any,
            root_prefix: None,
            dir_name: Some(".npm-global"),
            description: "Global npm binaries",
        },
        ProtectedPathRule {
            category: ProtectedPathCategory::ToolBinary,
            os: OsFamily::Any,
            root_prefix: None,
            dir_name: Some(".local"),
            description: "Local user binaries",
        },
        ProtectedPathRule {
            category: ProtectedPathCategory::ToolBinary,
            os: OsFamily::Any,
            root_prefix: None,
            dir_name: Some("go"),
            description: "Go installation directory",
        },
        ProtectedPathRule {
            category: ProtectedPathCategory::ToolBinary,
            os: OsFamily::Any,
            root_prefix: None,
            dir_name: Some(".gradle"),
            description: "Gradle configuration",
        },
        ProtectedPathRule {
            category: ProtectedPathCategory::ToolBinary,
            os: OsFamily::Any,
            root_prefix: None,
            dir_name: Some(".m2"),
            description: "Maven repository",
        },
        ProtectedPathRule {
            category: ProtectedPathCategory::ToolCache,
            os: OsFamily::Any,
            root_prefix: None,
            dir_name: Some(".cargo"),
            description: "Cargo registry cache",
        },
        ProtectedPathRule {
            category: ProtectedPathCategory::ToolCache,
            os: OsFamily::Any,
            root_prefix: None,
            dir_name: Some(".npm"),
            description: "npm cache",
        },
        ProtectedPathRule {
            category: ProtectedPathCategory::ToolCache,
            os: OsFamily::Any,
            root_prefix: None,
            dir_name: Some(".gradle"),
            description: "Gradle caches",
        },
        ProtectedPathRule {
            category: ProtectedPathCategory::ToolCache,
            os: OsFamily::Any,
            root_prefix: None,
            dir_name: Some(".m2"),
            description: "Maven local repository",
        },
    ]
}

/// The family `os` includes `platform` (Unix covers Linux and macOS).
pub open spec fn os_matches(os: OsFamily, platform: Platform) -> bool {
    match os {
        OsFamily::Any => true,
        OsFamily::Unix => platform == Platform::Linux || platform == Platform::MacOs,
        OsFamily::Windows => platform == Platform::Windows,
        OsFamily::MacOS => platform == Platform::MacOs,
    }
}

/// Whether the family `os` includes `platform`.
pub fn matches_os_family(os: OsFamily, platform: Platform) -> (r: bool)
    ensures
        r == os_matches(os, platform),
{
    match os {
        OsFamily::Any => true,
        OsFamily::Unix => platform == Platform::Linux || platform == Platform::MacOs,
        OsFamily::Windows => platform == Platform::Windows,
        OsFamily::MacOS => platform == Platform::MacOs,
    }
}

/// Rule `r` protects the entry name `name` on `platform` at `tier`.
pub open spec fn rule_names(r: ProtectedPathRule, name: Seq<char>, tier: ScanTier, platform: Platform) -> bool {
    &&& r.dir_name matches Some(d) && d@ == name
    &&& os_matches(r.os, platform)
    &&& category_protected(r.category, tier)
}

/// Some registry rule protects the entry name `name`.
pub open spec fn names(name: Seq<char>, tier: ScanTier, platform: Platform) -> bool {
    exists|i: int|
        0 <= i < protected_path_rules_spec().len() && rule_names(
            protected_path_rules_spec()[i],
            name,
            tier,
            platform,
        )
}

/// Whether `name` is a protected entry name on `platform` at `tier`.
pub fn is_protected_entry_name(name: &str, tier: ScanTier, platform: Platform) -> (r: bool)
    ensures
        r == names(name@, tier, platform),
{
    let nc = chars_of(name);
    let rules = protected_path_rules();
    let n = rules.len();
    for i in 0..n
        invariant
            n == rules@.len(),
            rules@ == protected_path_rules_spec(),
            nc@ == name@,
            forall|k: int| 0 <= k < i ==> !rule_names(rules@[k], name@, tier, platform),
    {
        let rule = rules[i];
        match rule.dir_name {
            Some(d) => {
                if chars_eq_str(nc.as_slice(), d) && matches_os_family(rule.os, platform)
                    && is_category_protected(rule.category, tier) {
                    assert(rule_names(rules@[i as int], name@, tier, platform));
                    return true;
                }
            },
            None => {},
        }
    }
    false
}

/// The text a root prefix is compared against: on Windows `/` becomes `\`
/// and the result is lowercased; elsewhere the path is kept as it is.
pub open spec fn normalized(path: Seq<char>, platform: Platform) -> Seq<char> {
    if platform == Platform::Windows {
        lowercase(replace_char(path, '/', '\\'))
    } else {
        path
    }
}

/// The text a root prefix is compared against on `platform`.
pub fn normalize_path(path: &str, platform: Platform) -> (r: Vec<char>)
    ensures
        r@ == normalized(path@, platform),
{
    let p = chars_of(path);
    if platform == Platform::Windows {
        let q = replace_char_exec(p.as_slice(), '/', '\\');
        let qs = string_of(q.as_slice());
        let l = to_lowercase(qs.as_str());
        chars_of(l.as_str())
    } else {
        p
    }
}

/// The path separator of `platform`.
pub open spec fn separator(platform: Platform) -> char {
    if platform == Platform::Windows {
        '\\'
    } else {
        '/'
    }
}

/// Rule `r` has a root prefix equal to `norm` or followed in `norm` by the
/// platform separator, applies to `platform` and is in force at `tier`.
pub open spec fn rule_roots(r: ProtectedPathRule, norm: Seq<char>, tier: ScanTier, platform: Platform) -> bool {
    &&& os_matches(r.os, platform)
    &&& category_protected(r.category, tier)
    &&& r.root_prefix matches Some(p) && (norm == p@ || is_prefix_of(
        p@.push(separator(platform)),
        norm,
    ))
}

/// The path with components `cs` lies at or under the path `prefix`, when
/// it is set.
pub open spec fn under_prefix(cs: Seq<Seq<char>>, prefix: Option<String>, platform: Platform) -> bool {
    match prefix {
        Some(p) => is_prefix_of(platform_components(platform, p@), cs),
        None => false,
    }
}

/// The path with components `cs` lies under `home` joined with one of `subs`.
pub open spec fn under_home(
    cs: Seq<Seq<char>>,
    home: Option<String>,
    subs: Seq<&'static str>,
    platform: Platform,
) -> bool {
    match home {
        Some(h) => under_any_join(cs, platform_components(platform, h@), subs),
        None => false,
    }
}

/// `path` lies in a home directory protected at `tier`.  On Windows: under
/// `%USERPROFILE%` joined with a protected name, below Deep at or under
/// `%LOCALAPPDATA%`, and at any tier at or under `%APPDATA%`.  Elsewhere:
/// under `$HOME` joined with a protected name.
pub open spec fn home_protects(path: Seq<char>, tier: ScanTier, platform: Platform, env: HomeEnv) -> bool {
    let cs = platform_components(platform, path);
    if platform == Platform::Windows {
        ||| under_home(cs, env.user_profile, profile_subdirs_spec(tier), platform)
        ||| tier_rank(tier) < 2 && under_prefix(cs, env.local_app_data, platform)
        ||| under_prefix(cs, env.app_data, platform)
    } else {
        under_home(cs, env.home, home_subdirs_spec(tier), platform)
    }
}

/// Whether the path with components `cs` lies under `home` joined with one
/// of `subs`.
pub fn matches_any_home_subpath(
    cs: &Vec<Vec<char>>,
    home: &Option<String>,
    subs: &Vec<&'static str>,
    platform: Platform,
) -> (r: bool)
    ensures
        r == under_home(comps_view(cs@), *home, subs@, platform),
{
    match home {
        Some(h) => {
            let hc = chars_of(h.as_str());
            let hcs = platform_components_exec(platform, hc.as_slice());
            under_any_join_exec(cs, &hcs, subs)
        },
        None => false,
    }
}

/// Whether the path with components `cs` lies at or under `prefix`.
pub fn matches_any_path_prefix(cs: &Vec<Vec<char>>, prefix: &Option<String>, platform: Platform) -> (r: bool)
    ensures
        r == under_prefix(comps_view(cs@), *prefix, platform),
{
    match prefix {
        Some(p) => {
            let pc = chars_of(p.as_str());
            let pcs = platform_components_exec(platform, pc.as_slice());
            comps_prefix(&pcs, cs)
        },
        None => false,
    }
}

/// Whether `path` lies in a home directory protected at `tier`.
pub fn is_protected_home_subpath(path: &str, tier: ScanTier, platform: Platform, env: &HomeEnv) -> (r: bool)
    ensures
        r == home_protects(path@, tier, platform, *env),
{
    let p = chars_of(path);
    let cs = platform_components_exec(platform, p.as_slice());
    if platform == Platform::Windows {
        let subs = profile_subdirs(tier);
        if matches_any_home_subpath(&cs, &env.user_profile, &subs, platform) {
            return true;
        }
        (tier.rank() < 2 && matches_any_path_prefix(&cs, &env.local_app_data, platform))
            || matches_any_path_prefix(&cs, &env.app_data, platform)
    } else {
        let subs = home_subdirs(tier);
        matches_any_home_subpath(&cs, &env.home, &subs, platform)
    }
}

/// `path` is a protected root on `platform` at `tier`.
pub open spec fn protected_root(path: Seq<char>, tier: ScanTier, platform: Platform, env: HomeEnv) -> bool {
    ||| exists|i: int|
        0 <= i < protected_path_rules_spec().len() && rule_roots(
            protected_path_rules_spec()[i],
            normalized(path, platform),
            tier,
            platform,
        )
    ||| home_protects(path, tier, platform, env)
}

/// Whether `path` is a protected root on `platform` at `tier`.
pub fn is_protected_root(path: &str, tier: ScanTier, platform: Platform, env: &HomeEnv) -> (r: bool)
    ensures
        r == protected_root(path@, tier, platform, *env),
{
    let norm = normalize_path(path, platform);
    let sep = if platform == Platform::Windows {
        '\\'
    } else {
        '/'
    };
    let rules = protected_path_rules();
    let n = rules.len();
    for i in 0..n
        invariant
            n == rules@.len(),
            rules@ == protected_path_rules_spec(),
            norm@ == normalized(path@, platform),
            sep == separator(platform),
            forall|k: int| 0 <= k < i ==> !rule_roots(rules@[k], norm@, tier, platform),
    {
        let rule = rules[i];
        if matches_os_family(rule.os, platform) && is_category_protected(rule.category, tier) {
            match rule.root_prefix {
                Some(p) => {
                    let pc = chars_of(p);
                    let mut with_sep = pc.clone();
                    with_sep.push(sep);
                    if chars_eq(norm.as_slice(), pc.as_slice()) || has_prefix(
                        norm.as_slice(),
                        with_sep.as_slice(),
                    ) {
                        assert(rule_roots(rules@[i as int], norm@, tier, platform));
                        return true;
                    }
                },
                None => {},
            }
        }
    }
    is_protected_home_subpath(path, tier, platform, env)
}

/// Text whose occurrence in a path (with `\` read as `/`) makes it unsafe.
pub open spec fn blocked_fragment(path: Seq<char>) -> bool {
    let s = replace_char(path, '\\', '/');
    ||| occurs_in(".vscode/extensions"@, s)
    ||| occurs_in(".antigravity/extensions"@, s)
    ||| occurs_in(".cursor/extensions"@, s)
    ||| occurs_in("AppData/Local/Programs"@, s)
}

/// Some component of `path` is a protected entry name.
pub open spec fn has_protected_component(path: Seq<char>, tier: ScanTier, platform: Platform) -> bool {
    exists|i: int|
        0 <= i < platform_components(platform, path).len() && names(
            platform_components(platform, path)[i],
            tier,
            platform,
        )
}

/// A path is safe when it is no protected root, holds none of the blocked
/// fragments and has no protected component.
pub open spec fn safe(path: Seq<char>, tier: ScanTier, platform: Platform, env: HomeEnv) -> bool {
    &&& !protected_root(path, tier, platform, env)
    &&& !blocked_fragment(path)
    &&& !has_protected_component(path, tier, platform)
}

/// Whether `path` may be deleted on `platform` at `tier`.
pub fn is_safe(path: &str, tier: ScanTier, platform: Platform, env: &HomeEnv) -> (r: bool)
    ensures
        r == safe(path@, tier, platform, *env),
{
    if is_protected_root(path, tier, platform, env) {
        return false;
    }
    let p = chars_of(path);
    let s = replace_char_exec(p.as_slice(), '\\', '/');
    if contains_str(s.as_slice(), ".vscode/extensions") || contains_str(
        s.as_slice(),
        ".antigravity/extensions",
    ) || contains_str(s.as_slice(), ".cursor/extensions") || contains_str(
        s.as_slice(),
        "AppData/Local/Programs",
    ) {
        return false;
    }
    let cs = platform_components_exec(platform, p.as_slice());
    let n = cs.len();
    for i in 0..n
        invariant
            n == cs@.len(),
            comps_view(cs@) == platform_components(platform, path@),
            forall|k: int| 0 <= k < i ==> !names(platform_components(platform, path@)[k], tier, platform),
    {
        let name = string_of(cs[i].as_slice());
        assert(name@ == platform_components(platform, path@)[i as int]);
        if is_protected_entry_name(name.as_str(), tier, platform) {
            return false;
        }
    }
    true
}

} // verus!
