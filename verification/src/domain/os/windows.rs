//! Windows path protection rules.
//!
//! Names and roots are compared case-insensitively: both sides are
//! lowercased with std's Unicode case mapping (named [`lowercase`]).
use vstd::prelude::*;
use crate::domain::os::{
    HomeEnv, Platform, PlatformRule, ProtectedPathCategory, category_protected,
    is_category_protected, platform_components, platform_components_exec, under_any_join,
    under_any_join_exec, under_join, under_join_exec,
};
use crate::domain::traits::{ScanTier, tier_rank};
use crate::path::{Comps, comps_prefix, comps_view};
use crate::text::{
    chars_eq, chars_of, contains_str, has_prefix, is_prefix_of, lowercase, occurs_in, replace_char,
    replace_char_exec, string_of, to_lowercase,
};

verus! {

/// The Windows rule table.
pub open spec fn windows_rules_spec() -> Seq<PlatformRule> {
    seq![
        PlatformRule { category: ProtectedPathCategory::System, dir_name: None, root: Some("c:\\windows") },
        PlatformRule { category: ProtectedPathCategory::System, dir_name: None, root: Some("c:\\program files") },
        PlatformRule { category: ProtectedPathCategory::System, dir_name: None, root: Some("c:\\program files (x86)") },
        PlatformRule { category: ProtectedPathCategory::System, dir_name: Some("Programs"), root: None },
        PlatformRule { category: ProtectedPathCategory::ProjectMetadata, dir_name: Some(".vscode"), root: None },
        PlatformRule { category: ProtectedPathCategory::IdeExtension, dir_name: Some("extensions"), root: None },
        PlatformRule { category: ProtectedPathCategory::ProjectMetadata, dir_name: Some(".idea"), root: None },
        PlatformRule { category: ProtectedPathCategory::ProjectMetadata, dir_name: Some(".cursor"), root: None },
        PlatformRule { category: ProtectedPathCategory::IdeConfig, dir_name: Some("AppData"), root: None },
        PlatformRule { category: ProtectedPathCategory::ProjectMetadata, dir_name: Some(".git"), root: None },
        PlatformRule { category: ProtectedPathCategory::ProjectMetadata, dir_name: Some(".github"), root: None },
        PlatformRule { category: ProtectedPathCategory::ProjectMetadata, dir_name: Some(".gitignore"), root: None },
        PlatformRule { category: ProtectedPathCategory::ProjectMetadata, dir_name: Some(".editorconfig"), root: None },
        PlatformRule { category: ProtectedPathCategory::ProjectMetadata, dir_name: Some(".env"), root: None },
        PlatformRule { category: ProtectedPathCategory::ProjectMetadata, dir_name: Some(".env.local"), root: None },
        PlatformRule { category: ProtectedPathCategory::ToolBinary, dir_name: Some(".cargo"), root: None },
        PlatformRule { category: ProtectedPathCategory::ToolCache, dir_name: Some(".cargo"), root: None },
        PlatformRule { category: ProtectedPathCategory::ToolCache, dir_name: Some(".npm"), root: None },
    ]
}

/// The Windows rule table.
pub fn windows_rules() -> (r: Vec<PlatformRule>)
    ensures
        r@ == windows_rules_spec(),
{
    vec![
        PlatformRule { category: ProtectedPathCategory::System, dir_name: None, root: Some("c:\\windows") },
        PlatformRule { category: ProtectedPathCategory::System, dir_name: None, root: Some("c:\\program files") },
        PlatformRule { category: ProtectedPathCategory::System, dir_name: None, root: Some("c:\\program files (x86)") },
        PlatformRule { category: ProtectedPathCategory::System, dir_name: Some("Programs"), root: None },
        PlatformRule { category: ProtectedPathCategory::ProjectMetadata, dir_name: Some(".vscode"), root: None },
        PlatformRule { category: ProtectedPathCategory::IdeExtension, dir_name: Some("extensions"), root: None },
        PlatformRule { category: ProtectedPathCategory::ProjectMetadata, dir_name: Some(".idea"), root: None },
        PlatformRule { category: ProtectedPathCategory::ProjectMetadata, dir_name: Some(".cursor"), root: None },
        PlatformRule { category: ProtectedPathCategory::IdeConfig, dir_name: Some("AppData"), root: None },
        PlatformRule { category: ProtectedPathCategory::ProjectMetadata, dir_name: Some(".git"), root: None },
        PlatformRule { category: ProtectedPathCategory::ProjectMetadata, dir_name: Some(".github"), root: None },
        PlatformRule { category: ProtectedPathCategory::ProjectMetadata, dir_name: Some(".gitignore"), root: None },
        PlatformRule { category: ProtectedPathCategory::ProjectMetadata, dir_name: Some(".editorconfig"), root: None },
        PlatformRule { category: ProtectedPathCategory::ProjectMetadata, dir_name: Some(".env"), root: None },
        PlatformRule { category: ProtectedPathCategory::ProjectMetadata, dir_name: Some(".env.local"), root: None },
        PlatformRule { category: ProtectedPathCategory::ToolBinary, dir_name: Some(".cargo"), root: None },
        PlatformRule { category: ProtectedPathCategory::ToolCache, dir_name: Some(".cargo"), root: None },
        PlatformRule { category: ProtectedPathCategory::ToolCache, dir_name: Some(".npm"), root: None },
    ]
}

/// Rule `r` names `name` (compared after lowercasing both) and is in force
/// at `tier`.
pub open spec fn rule_names_ci(r: PlatformRule, name: Seq<char>, tier: ScanTier) -> bool {
    &&& r.dir_name matches Some(d) && lowercase(d@) == lowercase(name)
    &&& category_protected(r.category, tier)
}

/// Some Windows rule names `name` at `tier`.
pub open spec fn names(name: Seq<char>, tier: ScanTier) -> bool {
    exists|i: int|
        0 <= i < windows_rules_spec().len() && rule_names_ci(windows_rules_spec()[i], name, tier)
}

/// Whether `name` is a protected entry name on Windows at `tier`.
pub fn is_protected_entry_name(name: &str, tier: ScanTier) -> (r: bool)
    ensures
        r == names(name@, tier),
{
    let lname = to_lowercase(name);
    let ln = chars_of(lname.as_str());
    let rules = windows_rules();
    let n = rules.len();
    for i in 0..n
        invariant
            n == rules@.len(),
            rules@ == windows_rules_spec(),
            ln@ == lowercase(name@),
            forall|k: int| 0 <= k < i ==> !rule_names_ci(rules@[k], name@, tier),
    {
        let rule = rules[i];
        match rule.dir_name {
            Some(d) => {
                let ld = to_lowercase(d);
                let ldc = chars_of(ld.as_str());
                if chars_eq(ldc.as_slice(), ln.as_slice()) && is_category_protected(
                    rule.category,
                    tier,
                ) {
                    assert(rule_names_ci(rules@[i as int], name@, tier));
                    return true;
                }
            },
            None => {},
        }
    }
    false
}

/// `path`, lowercased, with `/` turned into `\`.
pub open spec fn normalized(path: Seq<char>) -> Seq<char> {
    replace_char(lowercase(path), '/', '\\')
}

/// Rule `r` has a root equal to the normalized path or a `\`-terminated
/// prefix of it, and is in force at `tier`.
pub open spec fn rule_roots_ci(r: PlatformRule, norm: Seq<char>, tier: ScanTier) -> bool {
    &&& r.root matches Some(p) && (norm == lowercase(p@) || is_prefix_of(
        lowercase(p@).push('\\'),
        norm,
    ))
    &&& category_protected(r.category, tier)
}

/// The Windows components of `path`.
pub open spec fn win_components(path: Seq<char>) -> Comps {
    platform_components(Platform::Windows, path)
}

/// The directories under `%USERPROFILE%` that stay protected at each tier.
pub open spec fn profile_subdirs_spec(tier: ScanTier) -> Seq<&'static str> {
    if tier_rank(tier) >= 2 {
        seq![]
    } else if tier_rank(tier) >= 1 {
        seq![".config", ".vscode", ".idea", ".cursor"]
    } else {
        seq![".cargo", ".config", ".vscode", ".idea", ".cursor"]
    }
}

/// The directories under `%USERPROFILE%` that stay protected at `tier`.
pub fn profile_subdirs(tier: ScanTier) -> (r: Vec<&'static str>)
    ensures
        r@ == profile_subdirs_spec(tier),
{
    if tier.rank() >= 2 {
        vec![]
    } else if tier.rank() >= 1 {
        vec![".config", ".vscode", ".idea", ".cursor"]
    } else {
        vec![".cargo", ".config", ".vscode", ".idea", ".cursor"]
    }
}

/// `path` lies inside a home directory protected at `tier`: under
/// `%USERPROFILE%` joined with a protected name; below Deep also at or in
/// `%LOCALAPPDATA%` itself or its `Local`, `LocalLow` or `Temp`
/// subdirectories, or at or under `%APPDATA%`.
pub open spec fn home_protects(path: Seq<char>, tier: ScanTier, env: HomeEnv) -> bool {
    let cs = win_components(path);
    ||| env.user_profile matches Some(u) && under_any_join(
        cs,
        win_components(u@),
        profile_subdirs_spec(tier),
    )
    ||| tier_rank(tier) < 2 && local_protects(cs, env.local_app_data)
    ||| tier_rank(tier) < 2 && roaming_protects(cs, env.app_data)
}

/// The path with components `cs` is `%LOCALAPPDATA%` itself or lies in its
/// `Local`, `LocalLow` or `Temp` subdirectory.
pub open spec fn local_protects(cs: Comps, local: Option<String>) -> bool {
    match local {
        Some(l) => {
            let lc = win_components(l@);
            cs == lc || under_join(cs, lc, "Local"@) || under_join(cs, lc, "LocalLow"@)
                || under_join(cs, lc, "Temp"@)
        },
        None => false,
    }
}

/// The path with components `cs` lies at or under `%APPDATA%`.
pub open spec fn roaming_protects(cs: Comps, roaming: Option<String>) -> bool {
    match roaming {
        Some(a) => is_prefix_of(win_components(a@), cs),
        None => false,
    }
}

/// Whether `path` lies inside one of the Windows home directories protected
/// at `tier`.
pub fn is_protected_home_subpath(path: &str, tier: ScanTier, env: &HomeEnv) -> (r: bool)
    ensures
        r == home_protects(path@, tier, *env),
{
    let p = chars_of(path);
    let cs = platform_components_exec(Platform::Windows, p.as_slice());
    match &env.user_profile {
        Some(u) => {
            let uc = chars_of(u.as_str());
            let ucs = platform_components_exec(Platform::Windows, uc.as_slice());
            let subs = profile_subdirs(tier);
            if under_any_join_exec(&cs, &ucs, &subs) {
                return true;
            }
        },
        None => {},
    }
    if tier.rank() < 2 {
        match &env.local_app_data {
            Some(l) => {
                let lc = chars_of(l.as_str());
                let lcs = platform_components_exec(Platform::Windows, lc.as_slice());
                let same = crate::path::comps_eq(&cs, &lcs);
                if same || under_join_exec(&cs, &lcs, "Local") || under_join_exec(
                    &cs,
                    &lcs,
                    "LocalLow",
                ) || under_join_exec(&cs, &lcs, "Temp") {
                    return true;
                }
            },
            None => {},
        }
        match &env.app_data {
            Some(a) => {
                let ac = chars_of(a.as_str());
                let acs = platform_components_exec(Platform::Windows, ac.as_slice());
                if comps_prefix(&acs, &cs) {
                    return true;
                }
            },
            None => {},
        }
    }
    false
}

/// `path` is, or lies under, one of the Windows system roots
/// (`C:\Windows`, `C:\Program Files`, `C:\Program Files (x86)`),
/// compared case-insensitively with `/` read as `\`.
pub open spec fn system_root(path: Seq<char>, tier: ScanTier) -> bool {
    exists|i: int|
        0 <= i < windows_rules_spec().len() && rule_roots_ci(windows_rules_spec()[i], normalized(path), tier)
}

/// `path` is a Windows protected root at `tier`.
pub open spec fn protected_root(path: Seq<char>, tier: ScanTier, env: HomeEnv) -> bool {
    ||| system_root(path, tier)
    ||| home_protects(path, tier, env)
}

/// Whether `path` is a protected root on Windows at `tier`.
pub fn is_protected_root(path: &str, tier: ScanTier, env: &HomeEnv) -> (r: bool)
    ensures
        r == protected_root(path@, tier, *env),
{
    if is_system_root(path, tier) {
        return true;
    }
    is_protected_home_subpath(path, tier, env)
}

/// Whether `path` is, or lies under, one of the Windows system roots.
pub fn is_system_root(path: &str, tier: ScanTier) -> (r: bool)
    ensures
        r == system_root(path@, tier),
{
    let lp = to_lowercase(path);
    let lpc = chars_of(lp.as_str());
    let norm = replace_char_exec(lpc.as_slice(), '/', '\\');
    let rules = windows_rules();
    let n = rules.len();
    for i in 0..n
        invariant
            n == rules@.len(),
            rules@ == windows_rules_spec(),
            norm@ == normalized(path@),
            forall|k: int| 0 <= k < i ==> !rule_roots_ci(rules@[k], norm@, tier),
    {
        let rule = rules[i];
        match rule.root {
            Some(p) => {
                let lroot = to_lowercase(p);
                let lrc = chars_of(lroot.as_str());
                let mut with_sep = lrc.clone();
                with_sep.push('\\');
                let hit = chars_eq(norm.as_slice(), lrc.as_slice()) || has_prefix(
                    norm.as_slice(),
                    with_sep.as_slice(),
                );
                if hit && is_category_protected(rule.category, tier) {
                    assert(rule_roots_ci(rules@[i as int], norm@, tier));
                    return true;
                }
            },
            None => {},
        }
    }
    false
}

/// Text whose occurrence in a Windows path (with `\` read as `/`) makes it unsafe.
pub open spec fn blocked_fragment(path: Seq<char>) -> bool {
    let s = replace_char(path, '\\', '/');
    ||| occurs_in(".vscode/extensions"@, s)
    ||| occurs_in(".antigravity/extensions"@, s)
    ||| occurs_in(".cursor/extensions"@, s)
    ||| occurs_in("AppData/Local/Programs"@, s)
}

/// Some Windows component of `path` is a protected entry name at `tier`.
pub open spec fn has_protected_component(path: Seq<char>, tier: ScanTier) -> bool {
    exists|i: int| 0 <= i < win_components(path).len() && names(win_components(path)[i], tier)
}

/// A path is safe on Windows when it is no protected root, holds none of the
/// blocked fragments and has no protected component.
pub open spec fn safe(path: Seq<char>, tier: ScanTier, env: HomeEnv) -> bool {
    !protected_root(path, tier, env) && !blocked_fragment(path) && !has_protected_component(path, tier)
}

/// Whether `path` may be deleted on Windows at `tier`.
pub fn is_safe(path: &str, tier: ScanTier, env: &HomeEnv) -> (r: bool)
    ensures
        r == safe(path@, tier, *env),
{
    if is_protected_root(path, tier, env) {
        return false;
    }
    let p = chars_of(path);
    let s = replace_char_exec(p.as_slice(), '\\', '/');
    if contains_str(s.as_slice(), ".vscode/extensions") || contains_str(
        s.as_slice(),
        ".antigravity/extensions",
    ) || contains_str(s.as_slice(), ".cursor/extensions") || contains_str(
        s.as_slice(),
        "AppData/Local/Programs",
    ) {
        return false;
    }
    let cs = platform_components_exec(Platform::Windows, p.as_slice());
    let n = cs.len();
    for i in 0..n
        invariant
            n == cs@.len(),
            comps_view(cs@) == win_components(path@),
            forall|k: int| 0 <= k < i ==> !names(win_components(path@)[k], tier),
    {
        let name = string_of(cs[i].as_slice());
        assert(name@ == win_components(path@)[i as int]);
        if is_protected_entry_name(name.as_str(), tier) {
            return false;
        }
    }
    true
}

} // verus!
