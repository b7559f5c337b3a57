//! macOS path protection rules.
use vstd::prelude::*;
use crate::domain::os::{
    HomeEnv, PlatformRule, ProtectedPathCategory, table_names, table_roots, table_roots_exec,
};
use crate::domain::os::unix::{
    base_rules, base_rules_spec, home_protects, is_protected_entry_name as unix_entry_name,
    is_protected_home_subpath,
};
use crate::domain::traits::ScanTier;
use crate::path::{components, comps_view, path_components};
use crate::text::{chars_of, contains_str, occurs_in, string_of};

verus! {

/// The rules that only macOS adds.
pub open spec fn macos_rules_spec() -> Seq<PlatformRule> {
    seq![
        PlatformRule { category: ProtectedPathCategory::System, dir_name: None, root: Some("/Applications") },
        PlatformRule { category: ProtectedPathCategory::System, dir_name: None, root: Some("/Library") },
        PlatformRule { category: ProtectedPathCategory::IdeConfig, dir_name: Some("Library"), root: None },
    ]
}

/// The rules that only macOS adds.
pub fn macos_rules() -> (r: Vec<PlatformRule>)
    ensures
        r@ == macos_rules_spec(),
{
    vec![
        PlatformRule { category: ProtectedPathCategory::System, dir_name: None, root: Some("/Applications") },
        PlatformRule { category: ProtectedPathCategory::System, dir_name: None, root: Some("/Library") },
        PlatformRule { category: ProtectedPathCategory::IdeConfig, dir_name: Some("Library"), root: None },
    ]
}

/// `path` lies at or under a root of the macOS or the shared Unix table that
/// is in force at `tier`, or inside a protected home directory.
pub open spec fn protected_root(path: Seq<char>, tier: ScanTier, env: HomeEnv) -> bool {
    ||| table_roots(macos_rules_spec(), components(path), tier)
    ||| table_roots(base_rules_spec(), components(path), tier)
    ||| home_protects(path, tier, env)
}

/// Whether `path` is a protected root on macOS.  A root `r` covers every
/// path equal to it or below it, compared component by component.
pub fn is_protected_root(path: &str, tier: ScanTier, env: &HomeEnv) -> (r: bool)
    ensures
        r == protected_root(path@, tier, *env),
{
    let pc = path_components(path);
    let mac = macos_rules();
    if table_roots_exec(&mac, &pc, tier) {
        return true;
    }
    let base = base_rules();
    if table_roots_exec(&base, &pc, tier) {
        return true;
    }
    is_protected_home_subpath(path, tier, env)
}

/// Text whose occurrence anywhere in a macOS path makes it unsafe.
pub open spec fn blocked_fragment(path: Seq<char>) -> bool {
    ||| occurs_in(".vscode/extensions"@, path)
    ||| occurs_in(".antigravity/extensions"@, path)
    ||| occurs_in(".cursor/extensions"@, path)
    ||| occurs_in("Library/Caches"@, path)
}

/// Some component of `path` is an entry name protected by the shared Unix
/// table at `tier`.
pub open spec fn has_protected_component(path: Seq<char>, tier: ScanTier) -> bool {
    exists|i: int|
        0 <= i < components(path).len() && table_names(base_rules_spec(), components(path)[i], tier)
}

/// A path is safe on macOS when it is no protected root, holds none of the
/// blocked fragments and has no protected component.
pub open spec fn safe(path: Seq<char>, tier: ScanTier, env: HomeEnv) -> bool {
    !protected_root(path, tier, env) && !blocked_fragment(path) && !has_protected_component(path, tier)
}

/// Whether `path` may be deleted on macOS at `tier`.
pub fn is_safe(path: &str, tier: ScanTier, env: &HomeEnv) -> (r: bool)
    ensures
        r == safe(path@, tier, *env),
{
    if is_protected_root(path, tier, env) {
        return false;
    }
    let p = chars_of(path);
    if contains_str(p.as_slice(), ".vscode/extensions") || contains_str(
        p.as_slice(),
        ".antigravity/extensions",
    ) || contains_str(p.as_slice(), ".cursor/extensions") || contains_str(
        p.as_slice(),
        "Library/Caches",
    ) {
        return false;
    }
    let pc = path_components(path);
    let n = pc.len();
    for i in 0..n
        invariant
            n == pc@.len(),
            comps_view(pc@) == components(path@),
            forall|k: int|
                0 <= k < i ==> !table_names(base_rules_spec(), components(path@)[k], tier),
    {
        let name = string_of(pc[i].as_slice());
        assert(name@ == components(path@)[i as int]);
        if unix_entry_name(name.as_str(), tier) {
            return false;
        }
    }
    true
}

} // verus!
