//! Platform-aware protection rules.
//!
//! Every check takes the platform it applies to and, where the rules look
//! at the user's home directories, the values of the environment variables
//! that name them ([`HomeEnv`]); reading those is left to the caller.
use vstd::prelude::*;
use crate::domain::traits::{ScanTier, tier_rank};
use crate::path::{Comps, comps_view, components, components_exec, root_comp};
use crate::text::{chars_eq_str, chars_of, is_prefix_of, replace_char, replace_char_exec, string_of};
use crate::path::comps_prefix;

pub mod unix;
pub mod windows;
pub mod tiers;

pub use unix::linux as linux;
pub use unix::mac as macos;

verus! {

/// What a protected path is.
#[derive(Clone, Copy, Debug, PartialEq, Eq, Structural)]
pub enum ProtectedPathCategory {
    /// System directories and installed tools.
    System,
    /// Application configuration and cache roots (`.config`, `Library`, `AppData`, …).
    IdeConfig,
    /// Editor extensions.
    IdeExtension,
    /// Tool binaries.
    ToolBinary,
    /// Tool caches.
    ToolCache,
    /// Workspace files never deleted: version control, editor settings and
    /// the local environment files (`.env`, `.env.local`).
    ProjectMetadata,
    /// Other environment files holding secrets (released at `Aggressive`).
    SecretConfig,
}

/// The operating system whose rules apply.
#[derive(Clone, Copy, Debug, PartialEq, Eq, Structural)]
pub enum Platform {
    Linux,
    MacOs,
    Windows,
}

/// The environment variables that locate the user's home directories.
#[derive(Clone, Debug)]
pub struct HomeEnv {
    /// `HOME`
    pub home: Option<String>,
    /// `USERPROFILE`
    pub user_profile: Option<String>,
    /// `LOCALAPPDATA`
    pub local_app_data: Option<String>,
    /// `APPDATA`
    pub app_data: Option<String>,
}

/// Which categories stay protected at each tier: everything at `Project`;
/// all but tool caches and binaries at `Cache`; additionally application
/// configuration and caches (`.config`, `Library`, `AppData`, …) are
/// released at `Deep`; only system paths, project metadata (version
/// control, editor settings, local environment files) and IDE extensions
/// at `Aggressive`.
pub open spec fn category_protected(category: ProtectedPathCategory, tier: ScanTier) -> bool {
    match tier {
        ScanTier::Project => true,
        ScanTier::Cache => category != ProtectedPathCategory::ToolCache && category
            != ProtectedPathCategory::ToolBinary,
        ScanTier::Deep => category != ProtectedPathCategory::ToolCache && category
            != ProtectedPathCategory::ToolBinary && category != ProtectedPathCategory::IdeConfig,
        ScanTier::Aggressive => category == ProtectedPathCategory::System || category
            == ProtectedPathCategory::ProjectMetadata || category
            == ProtectedPathCategory::IdeExtension,
    }
}

/// Whether `category` is protected at `tier`.
pub fn is_category_protected(category: ProtectedPathCategory, tier: ScanTier) -> (r: bool)
    ensures
        r == category_protected(category, tier),
{
    match tier {
        ScanTier::Project => true,
        ScanTier::Cache => category != ProtectedPathCategory::ToolCache && category
            != ProtectedPathCategory::ToolBinary,
        ScanTier::Deep => category != ProtectedPathCategory::ToolCache && category
            != ProtectedPathCategory::ToolBinary && category != ProtectedPathCategory::IdeConfig,
        ScanTier::Aggressive => category == ProtectedPathCategory::System || category
            == ProtectedPathCategory::ProjectMetadata || category
            == ProtectedPathCategory::IdeExtension,
    }
}

/// One entry of a platform's rule table: a directory name protected wherever
/// it occurs, or a root under which everything is protected.
#[derive(Clone, Copy, Debug)]
pub struct PlatformRule {
    pub category: ProtectedPathCategory,
    pub dir_name: Option<&'static str>,
    pub root: Option<&'static str>,
}

/// Rule `r` protects the entry name `name` at `tier`.
pub open spec fn rule_names(r: PlatformRule, name: Seq<char>, tier: ScanTier) -> bool {
    &&& r.dir_name matches Some(d) && d@ == name
    &&& category_protected(r.category, tier)
}

/// Some rule of `rules` protects the entry name `name` at `tier`.
pub open spec fn table_names(rules: Seq<PlatformRule>, name: Seq<char>, tier: ScanTier) -> bool {
    exists|i: int| 0 <= i < rules.len() && rule_names(rules[i], name, tier)
}

/// The root `p` covers the path with components `cs`: the filesystem root
/// `/` covers only itself, every other root itself and what lies below it.
pub open spec fn root_covers(p: Seq<char>, cs: Comps) -> bool {
    if components(p) == seq![root_comp()] {
        cs == components(p)
    } else {
        is_prefix_of(components(p), cs)
    }
}

/// Rule `r` has a root that covers the path with components `cs`, and is
/// in force at `tier`.
pub open spec fn rule_roots(r: PlatformRule, cs: Comps, tier: ScanTier) -> bool {
    &&& r.root matches Some(p) && root_covers(p@, cs)
    &&& category_protected(r.category, tier)
}

/// Some rule of `rules` has a root that the path with components `cs` lies
/// at or under.
pub open spec fn table_roots(rules: Seq<PlatformRule>, cs: Comps, tier: ScanTier) -> bool {
    exists|i: int| 0 <= i < rules.len() && rule_roots(rules[i], cs, tier)
}

/// Whether a rule of `rules` protects the entry name `name` at `tier`.
pub fn table_names_exec(rules: &Vec<PlatformRule>, name: &[char], tier: ScanTier) -> (r: bool)
    ensures
        r == table_names(rules@, name@, tier),
{
    let n = rules.len();
    for i in 0..n
        invariant
            n == rules@.len(),
            forall|k: int| 0 <= k < i ==> !rule_names(rules@[k], name@, tier),
    {
        let rule = rules[i];
        match rule.dir_name {
            Some(d) => {
                if chars_eq_str(name, d) && is_category_protected(rule.category, tier) {
                    assert(rule_names(rules@[i as int], name@, tier));
                    return true;
                }
            },
            None => {},
        }
    }
    false
}

/// Whether a rule of `rules` has a root that the path with components `cs`
/// lies at or under.
pub fn table_roots_exec(rules: &Vec<PlatformRule>, cs: &Vec<Vec<char>>, tier: ScanTier) -> (r:
    bool)
    ensures
        r == table_roots(rules@, comps_view(cs@), tier),
{
    let n = rules.len();
    for i in 0..n
        invariant
            n == rules@.len(),
            forall|k: int| 0 <= k < i ==> !rule_roots(rules@[k], comps_view(cs@), tier),
    {
        let rule = rules[i];
        match rule.root {
            Some(p) => {
                let pc = components_exec(chars_of(p).as_slice());
                let only_root = pc.len() == 1 && crate::path::is_root_exec(&pc[0]);
                proof {
                    if only_root {
                        assert(comps_view(pc@) =~= seq![root_comp()]);
                    } else if comps_view(pc@).len() == 1 {
                        assert(comps_view(pc@)[0] != root_comp());
                        assert(comps_view(pc@) != seq![root_comp()]);
                    }
                }
                let covers = if only_root {
                    crate::path::comps_eq(&pc, cs)
                } else {
                    comps_prefix(&pc, cs)
                };
                if covers && is_category_protected(rule.category, tier) {
                    assert(rule_roots(rules@[i as int], comps_view(cs@), tier));
                    return true;
                }
            },
            None => {},
        }
    }
    false
}

/// The components of a path as the platform reads it: on Windows both `/`
/// and `\` separate components.
pub open spec fn platform_components(platform: Platform, p: Seq<char>) -> Comps {
    if platform == Platform::Windows {
        components(replace_char(p, '\\', '/'))
    } else {
        components(p)
    }
}

/// The components of a path as the platform reads it.
pub fn platform_components_exec(platform: Platform, p: &[char]) -> (r: Vec<Vec<char>>)
    ensures
        comps_view(r@) == platform_components(platform, p@),
{
    if platform == Platform::Windows {
        let q = replace_char_exec(p, '\\', '/');
        components_exec(q.as_slice())
    } else {
        components_exec(p)
    }
}

/// The path with components `cs` lies at or under `base` joined with the
/// single directory name `sub`.
pub open spec fn under_join(cs: Comps, base: Comps, sub: Seq<char>) -> bool {
    is_prefix_of(base.push(sub), cs)
}

/// Whether the path with components `cs` lies at or under `base` joined
/// with `sub`.
pub fn under_join_exec(cs: &Vec<Vec<char>>, base: &Vec<Vec<char>>, sub: &str) -> (r: bool)
    ensures
        r == under_join(comps_view(cs@), comps_view(base@), sub@),
{
    let mut b = base.clone();
    let s = chars_of(sub);
    proof {
        assert(comps_view(b@) == comps_view(base@));
    }
    let ghost bv = b@;
    b.push(s);
    assert(comps_view(b@) =~= comps_view(bv).push(sub@));
    comps_prefix(&b, cs)
}

/// Some directory name of `subs` joined to `base` lies at or over the path
/// with components `cs`.
pub open spec fn under_any_join(cs: Comps, base: Comps, subs: Seq<&'static str>) -> bool {
    exists|i: int| 0 <= i < subs.len() && under_join(cs, base, subs[i]@)
}

/// Whether the path with components `cs` lies at or under `base` joined with
/// one of `subs`.
pub fn under_any_join_exec(cs: &Vec<Vec<char>>, base: &Vec<Vec<char>>, subs: &Vec<&'static str>) -> (r: bool)
    ensures
        r == under_any_join(comps_view(cs@), comps_view(base@), subs@),
{
    let n = subs.len();
    for i in 0..n
        invariant
            n == subs@.len(),
            forall|k: int| 0 <= k < i ==> !under_join(comps_view(cs@), comps_view(base@), subs@[k]@),
    {
        if under_join_exec(cs, base, subs[i]) {
            return true;
        }
    }
    false
}

} // verus!

verus! {

/// The text of a native path in the form the path model reads: on Windows,
/// where `\` separates components as `/` does, every `\` becomes `/`;
/// elsewhere the text is kept (there `\` may be part of a name).
pub open spec fn model_text(path: Seq<char>, platform: Platform) -> Seq<char> {
    if platform == Platform::Windows {
        replace_char(path, '\\', '/')
    } else {
        path
    }
}

/// A native path of `platform` in the form the path model reads.  Paths
/// that the scan, the reduction and the preview compare must pass through
/// here first, so that on Windows both separators split components.
pub fn model_path(path: &str, platform: Platform) -> (r: String)
    ensures
        r@ == model_text(path@, platform),
{
    let p = chars_of(path);
    if platform == Platform::Windows {
        let q = replace_char_exec(p.as_slice(), '\\', '/');
        string_of(q.as_slice())
    } else {
        string_of(p.as_slice())
    }
}

/// Reading a path in the model form changes none of its platform
/// components: the protection rules give the same answer either way.
pub proof fn lemma_model_text_keeps_components(path: Seq<char>, platform: Platform)
    ensures
        platform_components(platform, model_text(path, platform)) == platform_components(platform, path),
{
    if platform == Platform::Windows {
        let m = replace_char(path, '\\', '/');
        assert(replace_char(m, '\\', '/') =~= m);
    }
}

/// `path` is safe to delete on `platform` at `tier`: that platform's rules
/// allow it, and it is not under a Windows system root (which is refused on
/// every platform).
pub open spec fn os_safe(path: Seq<char>, tier: ScanTier, platform: Platform, env: HomeEnv) -> bool {
    &&& match platform {
        Platform::Windows => windows::safe(path, tier, env),
        Platform::MacOs => macos::safe(path, tier, env),
        Platform::Linux => crate::domain::registry::safe(path, tier, Platform::Linux, env),
    }
    &&& !windows::system_root(path, tier)
}

/// `name` is a protected entry name on `platform` at `tier`.
pub open spec fn os_names(name: Seq<char>, tier: ScanTier, platform: Platform) -> bool {
    match platform {
        Platform::Windows => windows::names(name, tier),
        _ => table_names(unix::base_rules_spec(), name, tier),
    }
}

/// `path` is a protected root on `platform` at `tier`: one of that
/// platform's, or a Windows system root, which is protected on every
/// platform.
pub open spec fn os_protected_root(path: Seq<char>, tier: ScanTier, platform: Platform, env: HomeEnv) -> bool {
    ||| match platform {
        Platform::Windows => windows::protected_root(path, tier, env),
        Platform::MacOs => macos::protected_root(path, tier, env),
        Platform::Linux => crate::domain::registry::protected_root(path, tier, Platform::Linux, env),
    }
    ||| windows::system_root(path, tier)
}

/// Whether `path` may be deleted on `platform` at `tier`, by that platform's rules.
pub fn is_safe(path: &str, tier: ScanTier, platform: Platform, env: &HomeEnv) -> (r: bool)
    ensures
        r == os_safe(path@, tier, platform, *env),
{
    let by_platform = match platform {
        Platform::Windows => windows::is_safe(path, tier, env),
        Platform::MacOs => macos::is_safe(path, tier, env),
        Platform::Linux => linux::is_safe(path, tier, env),
    };
    by_platform && !windows::is_system_root(path, tier)
}

/// Whether `name` is a protected entry name on `platform` at `tier`.
pub fn is_protected_entry_name(name: &str, tier: ScanTier, platform: Platform) -> (r: bool)
    ensures
        r == os_names(name@, tier, platform),
{
    match platform {
        Platform::Windows => windows::is_protected_entry_name(name, tier),
        _ => unix::is_protected_entry_name(name, tier),
    }
}

/// Whether `path` is a protected root on `platform` at `tier`.
pub fn is_protected_root(path: &str, tier: ScanTier, platform: Platform, env: &HomeEnv) -> (r: bool)
    ensures
        r == os_protected_root(path@, tier, platform, *env),
{
    let by_platform = match platform {
        Platform::Windows => windows::is_protected_root(path, tier, env),
        Platform::MacOs => macos::is_protected_root(path, tier, env),
        Platform::Linux => linux::is_protected_root(path, tier, env),
    };
    by_platform || windows::is_system_root(path, tier)
}

} // verus!

verus! {

/// A higher tier never protects a category that a lower tier releases:
/// protection only relaxes as the tier rises.
pub proof fn lemma_protection_relaxes_with_tier(
    category: ProtectedPathCategory,
    lower: ScanTier,
    higher: ScanTier,
)
    requires
        tier_rank(lower) <= tier_rank(higher),
        category_protected(category, higher),
    ensures
        category_protected(category, lower),
{
}

/// What each tier releases: nothing at `Project`; tool caches and tool
/// binaries at `Cache`; additionally application configuration and caches
/// at `Deep`; additionally the other secret files at `Aggressive`.  Every
/// other category stays protected at every tier.
pub proof fn lemma_released_categories(c: ProtectedPathCategory)
    ensures
        category_protected(c, ScanTier::Project),
        !category_protected(c, ScanTier::Cache) <==> (c == ProtectedPathCategory::ToolCache || c
            == ProtectedPathCategory::ToolBinary),
        !category_protected(c, ScanTier::Deep) <==> (c == ProtectedPathCategory::ToolCache || c
            == ProtectedPathCategory::ToolBinary || c == ProtectedPathCategory::IdeConfig),
        !category_protected(c, ScanTier::Aggressive) <==> (c == ProtectedPathCategory::ToolCache || c
            == ProtectedPathCategory::ToolBinary || c == ProtectedPathCategory::IdeConfig || c
            == ProtectedPathCategory::SecretConfig),
{
}

/// Below `Deep`, the user's application configuration and cache
/// directories (`.config`, `.cache`) are protected wherever they occur in
/// a path, on Linux and macOS: no such path is safe to delete.
pub proof fn lemma_app_caches_kept_below_deep(
    path: Seq<char>,
    tier: ScanTier,
    platform: Platform,
    env: HomeEnv,
    i: int,
)
    requires
        tier_rank(tier) < 2,
        platform != Platform::Windows,
        0 <= i < platform_components(platform, path).len(),
        platform_components(platform, path)[i] == ".cache"@ || platform_components(platform, path)[i]
            == ".config"@,
    ensures
        !os_safe(path, tier, platform, env),
{
    let name = platform_components(platform, path)[i];
    let ub = unix::base_rules_spec();
    let rr = crate::domain::registry::protected_path_rules_spec();
    if name == ".config"@ {
        assert(rule_names(ub[52], name, tier));
        assert(crate::domain::registry::rule_names(rr[17], name, tier, platform));
    } else {
        assert(rule_names(ub[53], name, tier));
        assert(crate::domain::registry::rule_names(rr[18], name, tier, platform));
    }
    match platform {
        Platform::MacOs => {
            assert(components(path)[i] == name);
            assert(macos::has_protected_component(path, tier));
        },
        _ => {
            assert(crate::domain::registry::has_protected_component(path, tier, platform));
        },
    }
}

/// System paths, project metadata and IDE extensions are protected at
/// every tier.
pub proof fn lemma_core_categories_always_protected(category: ProtectedPathCategory, tier: ScanTier)
    requires
        category == ProtectedPathCategory::System || category
            == ProtectedPathCategory::ProjectMetadata || category
            == ProtectedPathCategory::IdeExtension,
    ensures
        category_protected(category, tier),
{
}

/// The names that are never deleted: editor settings (`.vscode`, `.idea`,
/// `.cursor`), version control and editor metadata (`.git`, `.github`,
/// `.gitignore`, `.editorconfig`) and environment files (`.env`,
/// `.env.local`).
pub open spec fn workspace_guarded_name(name: Seq<char>) -> bool {
    name == ".vscode"@ || name == ".idea"@ || name == ".cursor"@ || name == ".git"@ || name
        == ".github"@ || name == ".gitignore"@ || name == ".editorconfig"@ || name == ".env"@ || name
        == ".env.local"@
}

/// The editor settings, repository metadata and environment files are
/// protected entry names on every platform and at every tier, both by the
/// platform tables and by the registry.
pub proof fn lemma_workspace_names_always_protected(name: Seq<char>, tier: ScanTier, platform: Platform)
    requires
        workspace_guarded_name(name),
    ensures
        os_names(name, tier, platform),
        crate::domain::registry::names(name, tier, platform),
{
    let ub = unix::base_rules_spec();
    let wr = windows::windows_rules_spec();
    let rr = crate::domain::registry::protected_path_rules_spec();
    if name == ".vscode"@ {
        assert(rule_names(ub[48], name, tier));
        assert(windows::rule_names_ci(wr[4], name, tier));
        assert(crate::domain::registry::rule_names(rr[13], name, tier, platform));
    } else if name == ".idea"@ {
        assert(rule_names(ub[50], name, tier));
        assert(windows::rule_names_ci(wr[6], name, tier));
        assert(crate::domain::registry::rule_names(rr[15], name, tier, platform));
    } else if name == ".cursor"@ {
        assert(rule_names(ub[51], name, tier));
        assert(windows::rule_names_ci(wr[7], name, tier));
        assert(crate::domain::registry::rule_names(rr[16], name, tier, platform));
    } else if name == ".git"@ {
        assert(rule_names(ub[54], name, tier));
        assert(windows::rule_names_ci(wr[9], name, tier));
        assert(crate::domain::registry::rule_names(rr[21], name, tier, platform));
    } else if name == ".github"@ {
        assert(rule_names(ub[55], name, tier));
        assert(windows::rule_names_ci(wr[10], name, tier));
        assert(crate::domain::registry::rule_names(rr[22], name, tier, platform));
    } else if name == ".gitignore"@ {
        assert(rule_names(ub[56], name, tier));
        assert(windows::rule_names_ci(wr[11], name, tier));
        assert(crate::domain::registry::rule_names(rr[23], name, tier, platform));
    } else if name == ".editorconfig"@ {
        assert(rule_names(ub[57], name, tier));
        assert(windows::rule_names_ci(wr[12], name, tier));
        assert(crate::domain::registry::rule_names(rr[24], name, tier, platform));
    } else if name == ".env"@ {
        assert(rule_names(ub[58], name, tier));
        assert(windows::rule_names_ci(wr[13], name, tier));
        assert(crate::domain::registry::rule_names(rr[25], name, tier, platform));
    } else {
        assert(rule_names(ub[59], name, tier));
        assert(windows::rule_names_ci(wr[14], name, tier));
        assert(crate::domain::registry::rule_names(rr[26], name, tier, platform));
    }
}

/// A path with a component among the names that are never deleted is
/// never safe to delete, on any platform, at any tier, whatever the
/// environment.
pub proof fn lemma_workspace_paths_never_safe(
    path: Seq<char>,
    tier: ScanTier,
    platform: Platform,
    env: HomeEnv,
    i: int,
)
    requires
        0 <= i < platform_components(platform, path).len(),
        workspace_guarded_name(platform_components(platform, path)[i]),
    ensures
        !os_safe(path, tier, platform, env),
{
    let name = platform_components(platform, path)[i];
    lemma_workspace_names_always_protected(name, tier, platform);
    match platform {
        Platform::Windows => {
            assert(windows::win_components(path)[i] == name);
            assert(windows::names(windows::win_components(path)[i], tier));
            assert(windows::has_protected_component(path, tier));
        },
        Platform::MacOs => {
            assert(components(path)[i] == name);
            assert(macos::has_protected_component(path, tier));
        },
        Platform::Linux => {
            assert(crate::domain::registry::has_protected_component(path, tier, platform));
        },
    }
}

} // verus!
