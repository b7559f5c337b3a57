//! Rules shared by the Unix-like platforms.
use vstd::prelude::*;
use crate::domain::os::{
    HomeEnv, PlatformRule, ProtectedPathCategory, table_names, table_names_exec, under_any_join,
    under_any_join_exec,
};
use crate::domain::traits::{ScanTier, tier_rank};
use crate::path::{components, path_components};
use crate::text::chars_of;

pub mod linux;
pub mod mac;

verus! {

/// The rule table shared by Linux and macOS.
pub open spec fn base_rules_spec() -> Seq<PlatformRule> {
    seq![
        PlatformRule { category: ProtectedPathCategory::System, dir_name: None, root: Some("/") },
        PlatformRule { category: ProtectedPathCategory::System, dir_name: None, root: Some("/usr") },
        PlatformRule { category: ProtectedPathCategory::System, dir_name: None, root: Some("/etc") },
        PlatformRule { category: ProtectedPathCategory::System, dir_name: None, root: Some("/var") },
        PlatformRule { category: ProtectedPathCategory::System, dir_name: None, root: Some("/bin") },
        PlatformRule { category: ProtectedPathCategory::System, dir_name: None, root: Some("/sbin") },
        PlatformRule { category: ProtectedPathCategory::System, dir_name: None, root: Some("/lib") },
        PlatformRule { category: ProtectedPathCategory::System, dir_name: None, root: Some("/var/cache/apt/archives") },
        PlatformRule { category: ProtectedPathCategory::System, dir_name: None, root: Some("/var/cache/pacman/pkg") },
        PlatformRule { category: ProtectedPathCategory::System, dir_name: None, root: Some("/var/cache/dnf") },
        PlatformRule { category: ProtectedPathCategory::System, dir_name: None, root: Some("/var/cache/yum") },
        PlatformRule { category: ProtectedPathCategory::System, dir_name: None, root: Some("/var/cache/zypp") },
        PlatformRule { category: ProtectedPathCategory::System, dir_name: None, root: Some("/var/cache/snapd") },
        PlatformRule { category: ProtectedPathCategory::System, dir_name: None, root: Some("~/.bun/bin/bun") },
        PlatformRule { category: ProtectedPathCategory::System, dir_name: None, root: Some("/usr/local/bin/bun") },
        PlatformRule { category: ProtectedPathCategory::System, dir_name: None, root: Some("/opt/bun/bin/bun") },
        PlatformRule { category: ProtectedPathCategory::System, dir_name: None, root: Some("~/Library/Caches") },
        PlatformRule { category: ProtectedPathCategory::System, dir_name: None, root: Some("/Library/Caches") },
        PlatformRule { category: ProtectedPathCategory::System, dir_name: None, root: Some("~/Library/Logs") },
        PlatformRule { category: ProtectedPathCategory::System, dir_name: None, root: Some("/Library/Logs") },
        PlatformRule { category: ProtectedPathCategory::System, dir_name: None, root: Some("~/.bun/bin/bun") },
        PlatformRule { category: ProtectedPathCategory::System, dir_name: None, root: Some("/usr/local/bin/bun") },
        PlatformRule { category: ProtectedPathCategory::System, dir_name: None, root: Some("/opt/homebrew/bin/bun") },
        PlatformRule { category: ProtectedPathCategory::System, dir_name: None, root: Some("/usr/bin/node") },
        PlatformRule { category: ProtectedPathCategory::System, dir_name: None, root: Some("/usr/bin/npm") },
        PlatformRule { category: ProtectedPathCategory::System, dir_name: None, root: Some("/usr/local/bin/node") },
        PlatformRule { category: ProtectedPathCategory::System, dir_name: None, root: Some("/usr/local/bin/npm") },
        PlatformRule { category: ProtectedPathCategory::System, dir_name: None, root: Some("~/.nvm/versions/node/*/bin/node") },
        PlatformRule { category: ProtectedPathCategory::System, dir_name: None, root: Some("~/.nvm/versions/node/*/bin/npm") },
        PlatformRule { category: ProtectedPathCategory::System, dir_name: None, root: Some("/usr/local/bin/node") },
        PlatformRule { category: ProtectedPathCategory::System, dir_name: None, root: Some("/usr/local/bin/npm") },
        PlatformRule { category: ProtectedPathCategory::System, dir_name: None, root: Some("/opt/homebrew/bin/node") },
        PlatformRule { category: ProtectedPathCategory::System, dir_name: None, root: Some("/opt/homebrew/bin/npm") },
        PlatformRule { category: ProtectedPathCategory::System, dir_name: None, root: Some("~/.nvm/versions/node/*/bin/node") },
        PlatformRule { category: ProtectedPathCategory::System, dir_name: None, root: Some("~/.nvm/versions/node/*/bin/npm") },
        PlatformRule { category: ProtectedPathCategory::System, dir_name: None, root: Some("/usr/bin/yarn") },
        PlatformRule { category: ProtectedPathCategory::System, dir_name: None, root: Some("/usr/local/bin/yarn") },
        PlatformRule { category: ProtectedPathCategory::System, dir_name: None, root: Some("~/.yarn/bin/yarn") },
        PlatformRule { category: ProtectedPathCategory::System, dir_name: None, root: Some("/opt/yarn/bin/yarn") },
        PlatformRule { category: ProtectedPathCategory::System, dir_name: None, root: Some("/usr/local/bin/yarn") },
        PlatformRule { category: ProtectedPathCategory::System, dir_name: None, root: Some("/opt/homebrew/bin/yarn") },
        PlatformRule { category: ProtectedPathCategory::System, dir_name: None, root: Some("~/.yarn/bin/yarn") },
        PlatformRule { category: ProtectedPathCategory::System, dir_name: None, root: Some("~/.deno/bin/deno") },
        PlatformRule { category: ProtectedPathCategory::System, dir_name: None, root: Some("/usr/bin/deno") },
        PlatformRule { category: ProtectedPathCategory::System, dir_name: None, root: Some("/usr/local/bin/deno") },
        PlatformRule { category: ProtectedPathCategory::System, dir_name: None, root: Some("~/.deno/bin/deno") },
        PlatformRule { category: ProtectedPathCategory::System, dir_name: None, root: Some("/usr/local/bin/deno") },
        PlatformRule { category: ProtectedPathCategory::System, dir_name: None, root: Some("/opt/homebrew/bin/deno") },
        PlatformRule { category: ProtectedPathCategory::ProjectMetadata, dir_name: Some(".vscode"), root: None },
        PlatformRule { category: ProtectedPathCategory::IdeExtension, dir_name: Some("extensions"), root: None },
        PlatformRule { category: ProtectedPathCategory::ProjectMetadata, dir_name: Some(".idea"), root: None },
        PlatformRule { category: ProtectedPathCategory::ProjectMetadata, dir_name: Some(".cursor"), root: None },
        PlatformRule { category: ProtectedPathCategory::IdeConfig, dir_name: Some(".config"), root: None },
        PlatformRule { category: ProtectedPathCategory::IdeConfig, dir_name: Some(".cache"), root: None },
        PlatformRule { category: ProtectedPathCategory::ProjectMetadata, dir_name: Some(".git"), root: None },
        PlatformRule { category: ProtectedPathCategory::ProjectMetadata, dir_name: Some(".github"), root: None },
        PlatformRule { category: ProtectedPathCategory::ProjectMetadata, dir_name: Some(".gitignore"), root: None },
        PlatformRule { category: ProtectedPathCategory::ProjectMetadata, dir_name: Some(".editorconfig"), root: None },
        PlatformRule { category: ProtectedPathCategory::ProjectMetadata, dir_name: Some(".env"), root: None },
        PlatformRule { category: ProtectedPathCategory::ProjectMetadata, dir_name: Some(".env.local"), root: None },
        PlatformRule { category: ProtectedPathCategory::ToolBinary, dir_name: Some(".cargo"), root: None },
        PlatformRule { category: ProtectedPathCategory::ToolCache, dir_name: Some(".cargo"), root: None },
        PlatformRule { category: ProtectedPathCategory::ToolCache, dir_name: Some(".npm"), root: None },
    ]
}

/// The rule table shared by Linux and macOS.
pub fn base_rules() -> (r: Vec<PlatformRule>)
    ensures
        r@ == base_rules_spec(),
{
    vec![
        PlatformRule { category: ProtectedPathCategory::System, dir_name: None, root: Some("/") },
        PlatformRule { category: ProtectedPathCategory::System, dir_name: None, root: Some("/usr") },
        PlatformRule { category: ProtectedPathCategory::System, dir_name: None, root: Some("/etc") },
        PlatformRule { category: ProtectedPathCategory::System, dir_name: None, root: Some("/var") },
        PlatformRule { category: ProtectedPathCategory::System, dir_name: None, root: Some("/bin") },
        PlatformRule { category: ProtectedPathCategory::System, dir_name: None, root: Some("/sbin") },
        PlatformRule { category: ProtectedPathCategory::System, dir_name: None, root: Some("/lib") },
        PlatformRule { category: ProtectedPathCategory::System, dir_name: None, root: Some("/var/cache/apt/archives") },
        PlatformRule { category: ProtectedPathCategory::System, dir_name: None, root: Some("/var/cache/pacman/pkg") },
        PlatformRule { category: ProtectedPathCategory::System, dir_name: None, root: Some("/var/cache/dnf") },
        PlatformRule { category: ProtectedPathCategory::System, dir_name: None, root: Some("/var/cache/yum") },
        PlatformRule { category: ProtectedPathCategory::System, dir_name: None, root: Some("/var/cache/zypp") },
        PlatformRule { category: ProtectedPathCategory::System, dir_name: None, root: Some("/var/cache/snapd") },
        PlatformRule { category: ProtectedPathCategory::System, dir_name: None, root: Some("~/.bun/bin/bun") },
        PlatformRule { category: ProtectedPathCategory::System, dir_name: None, root: Some("/usr/local/bin/bun") },
        PlatformRule { category: ProtectedPathCategory::System, dir_name: None, root: Some("/opt/bun/bin/bun") },
        PlatformRule { category: ProtectedPathCategory::System, dir_name: None, root: Some("~/Library/Caches") },
        PlatformRule { category: ProtectedPathCategory::System, dir_name: None, root: Some("/Library/Caches") },
        PlatformRule { category: ProtectedPathCategory::System, dir_name: None, root: Some("~/Library/Logs") },
        PlatformRule { category: ProtectedPathCategory::System, dir_name: None, root: Some("/Library/Logs") },
        PlatformRule { category: ProtectedPathCategory::System, dir_name: None, root: Some("~/.bun/bin/bun") },
        PlatformRule { category: ProtectedPathCategory::System, dir_name: None, root: Some("/usr/local/bin/bun") },
        PlatformRule { category: ProtectedPathCategory::System, dir_name: None, root: Some("/opt/homebrew/bin/bun") },
        PlatformRule { category: ProtectedPathCategory::System, dir_name: None, root: Some("/usr/bin/node") },
        PlatformRule { category: ProtectedPathCategory::System, dir_name: None, root: Some("/usr/bin/npm") },
        PlatformRule { category: ProtectedPathCategory::System, dir_name: None, root: Some("/usr/local/bin/node") },
        PlatformRule { category: ProtectedPathCategory::System, dir_name: None, root: Some("/usr/local/bin/npm") },
        PlatformRule { category: ProtectedPathCategory::System, dir_name: None, root: Some("~/.nvm/versions/node/*/bin/node") },
        PlatformRule { category: ProtectedPathCategory::System, dir_name: None, root: Some("~/.nvm/versions/node/*/bin/npm") },
        PlatformRule { category: ProtectedPathCategory::System, dir_name: None, root: Some("/usr/local/bin/node") },
        PlatformRule { category: ProtectedPathCategory::System, dir_name: None, root: Some("/usr/local/bin/npm") },
        PlatformRule { category: ProtectedPathCategory::System, dir_name: None, root: Some("/opt/homebrew/bin/node") },
        PlatformRule { category: ProtectedPathCategory::System, dir_name: None, root: Some("/opt/homebrew/bin/npm") },
        PlatformRule { category: ProtectedPathCategory::System, dir_name: None, root: Some("~/.nvm/versions/node/*/bin/node") },
        PlatformRule { category: ProtectedPathCategory::System, dir_name: None, root: Some("~/.nvm/versions/node/*/bin/npm") },
        PlatformRule { category: ProtectedPathCategory::System, dir_name: None, root: Some("/usr/bin/yarn") },
        PlatformRule { category: ProtectedPathCategory::System, dir_name: None, root: Some("/usr/local/bin/yarn") },
        PlatformRule { category: ProtectedPathCategory::System, dir_name: None, root: Some("~/.yarn/bin/yarn") },
        PlatformRule { category: ProtectedPathCategory::System, dir_name: None, root: Some("/opt/yarn/bin/yarn") },
        PlatformRule { category: ProtectedPathCategory::System, dir_name: None, root: Some("/usr/local/bin/yarn") },
        PlatformRule { category: ProtectedPathCategory::System, dir_name: None, root: Some("/opt/homebrew/bin/yarn") },
        PlatformRule { category: ProtectedPathCategory::System, dir_name: None, root: Some("~/.yarn/bin/yarn") },
        PlatformRule { category: ProtectedPathCategory::System, dir_name: None, root: Some("~/.deno/bin/deno") },
        PlatformRule { category: ProtectedPathCategory::System, dir_name: None, root: Some("/usr/bin/deno") },
        PlatformRule { category: ProtectedPathCategory::System, dir_name: None, root: Some("/usr/local/bin/deno") },
        PlatformRule { category: ProtectedPathCategory::System, dir_name: None, root: Some("~/.deno/bin/deno") },
        PlatformRule { category: ProtectedPathCategory::System, dir_name: None, root: Some("/usr/local/bin/deno") },
        PlatformRule { category: ProtectedPathCategory::System, dir_name: None, root: Some("/opt/homebrew/bin/deno") },
        PlatformRule { category: ProtectedPathCategory::ProjectMetadata, dir_name: Some(".vscode"), root: None },
        PlatformRule { category: ProtectedPathCategory::IdeExtension, dir_name: Some("extensions"), root: None },
        PlatformRule { category: ProtectedPathCategory::ProjectMetadata, dir_name: Some(".idea"), root: None },
        PlatformRule { category: ProtectedPathCategory::ProjectMetadata, dir_name: Some(".cursor"), root: None },
        PlatformRule { category: ProtectedPathCategory::IdeConfig, dir_name: Some(".config"), root: None },
        PlatformRule { category: ProtectedPathCategory::IdeConfig, dir_name: Some(".cache"), root: None },
        PlatformRule { category: ProtectedPathCategory::ProjectMetadata, dir_name: Some(".git"), root: None },
        PlatformRule { category: ProtectedPathCategory::ProjectMetadata, dir_name: Some(".github"), root: None },
        PlatformRule { category: ProtectedPathCategory::ProjectMetadata, dir_name: Some(".gitignore"), root: None },
        PlatformRule { category: ProtectedPathCategory::ProjectMetadata, dir_name: Some(".editorconfig"), root: None },
        PlatformRule { category: ProtectedPathCategory::ProjectMetadata, dir_name: Some(".env"), root: None },
        PlatformRule { category: ProtectedPathCategory::ProjectMetadata, dir_name: Some(".env.local"), root: None },
        PlatformRule { category: ProtectedPathCategory::ToolBinary, dir_name: Some(".cargo"), root: None },
        PlatformRule { category: ProtectedPathCategory::ToolCache, dir_name: Some(".cargo"), root: None },
        PlatformRule { category: ProtectedPathCategory::ToolCache, dir_name: Some(".npm"), root: None },
    ]
}

/// `name` is protected at `tier` by a directory-name rule of the shared
/// Unix table.
pub fn is_protected_entry_name(name: &str, tier: ScanTier) -> (r: bool)
    ensures
        r == table_names(base_rules_spec(), name@, tier),
{
    let rules = base_rules();
    let n = chars_of(name);
    table_names_exec(&rules, n.as_slice(), tier)
}

/// The directories under `$HOME` that stay protected at each tier.
pub open spec fn home_subdirs_spec(tier: ScanTier) -> Seq<&'static str> {
    if tier_rank(tier) >= 2 {
        seq![".local"]
    } else if tier_rank(tier) >= 1 {
        seq![".config", ".local", ".vscode", ".idea", ".cursor"]
    } else {
        seq![".cargo", ".config", ".local", ".vscode", ".idea", ".cursor"]
    }
}

/// The directories under `$HOME` that stay protected at `tier`.
pub fn home_subdirs(tier: ScanTier) -> (r: Vec<&'static str>)
    ensures
        r@ == home_subdirs_spec(tier),
{
    if tier.rank() >= 2 {
        vec![".local"]
    } else if tier.rank() >= 1 {
        vec![".config", ".local", ".vscode", ".idea", ".cursor"]
    } else {
        vec![".cargo", ".config", ".local", ".vscode", ".idea", ".cursor"]
    }
}

/// `path` lies at or under `$HOME/<d>` for one of the directories `d`
/// protected at `tier` (false when `HOME` is unset).
pub open spec fn home_protects(path: Seq<char>, tier: ScanTier, env: HomeEnv) -> bool {
    env.home matches Some(h) && under_any_join(components(path), components(h@), home_subdirs_spec(tier))
}

/// Whether `path` lies inside one of the home directories protected at
/// `tier`: `$HOME` joined with each name of [`home_subdirs`], compared
/// component by component.
pub fn is_protected_home_subpath(path: &str, tier: ScanTier, env: &HomeEnv) -> (r: bool)
    ensures
        r == home_protects(path@, tier, *env),
{
    match &env.home {
        Some(h) => {
            let hc = path_components(h.as_str());
            let pc = path_components(path);
            let subs = home_subdirs(tier);
            under_any_join_exec(&pc, &hc, &subs)
        },
        None => false,
    }
}

} // verus!
