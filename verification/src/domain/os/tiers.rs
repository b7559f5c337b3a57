//! Protection only relaxes as the tier rises: whatever a higher tier
//! protects, every lower tier protects too, on every platform.
use vstd::prelude::*;
use crate::domain::os::{
    HomeEnv, Platform, PlatformRule, lemma_protection_relaxes_with_tier, os_names, os_protected_root,
    os_safe, platform_components, rule_names, rule_roots, table_names, table_roots, under_any_join,
    under_join,
};
use crate::domain::os::{macos, unix, windows};
use crate::domain::registry;
use crate::domain::traits::{ScanTier, tier_rank};
use crate::path::{Comps, components};

verus! {

proof fn lemma_table_names_relax(rules: Seq<PlatformRule>, name: Seq<char>, lower: ScanTier, higher: ScanTier)
    requires
        tier_rank(lower) <= tier_rank(higher),
        table_names(rules, name, higher),
    ensures
        table_names(rules, name, lower),
{
    let i = choose|i: int| 0 <= i < rules.len() && rule_names(rules[i], name, higher);
    lemma_protection_relaxes_with_tier(rules[i].category, lower, higher);
    assert(rule_names(rules[i], name, lower));
}

proof fn lemma_table_roots_relax(rules: Seq<PlatformRule>, cs: Comps, lower: ScanTier, higher: ScanTier)
    requires
        tier_rank(lower) <= tier_rank(higher),
        table_roots(rules, cs, higher),
    ensures
        table_roots(rules, cs, lower),
{
    let i = choose|i: int| 0 <= i < rules.len() && rule_roots(rules[i], cs, higher);
    lemma_protection_relaxes_with_tier(rules[i].category, lower, higher);
    assert(rule_roots(rules[i], cs, lower));
}

proof fn lemma_windows_names_relax(name: Seq<char>, lower: ScanTier, higher: ScanTier)
    requires
        tier_rank(lower) <= tier_rank(higher),
        windows::names(name, higher),
    ensures
        windows::names(name, lower),
{
    let rs = windows::windows_rules_spec();
    let i = choose|i: int| 0 <= i < rs.len() && windows::rule_names_ci(rs[i], name, higher);
    lemma_protection_relaxes_with_tier(rs[i].category, lower, higher);
    assert(windows::rule_names_ci(rs[i], name, lower));
}

proof fn lemma_windows_system_root_relax(path: Seq<char>, lower: ScanTier, higher: ScanTier)
    requires
        tier_rank(lower) <= tier_rank(higher),
        windows::system_root(path, higher),
    ensures
        windows::system_root(path, lower),
{
    let rs = windows::windows_rules_spec();
    let i = choose|i: int|
        0 <= i < rs.len() && windows::rule_roots_ci(rs[i], windows::normalized(path), higher);
    lemma_protection_relaxes_with_tier(rs[i].category, lower, higher);
    assert(windows::rule_roots_ci(rs[i], windows::normalized(path), lower));
}

proof fn lemma_registry_names_relax(name: Seq<char>, lower: ScanTier, higher: ScanTier, platform: Platform)
    requires
        tier_rank(lower) <= tier_rank(higher),
        registry::names(name, higher, platform),
    ensures
        registry::names(name, lower, platform),
{
    let rs = registry::protected_path_rules_spec();
    let i = choose|i: int| 0 <= i < rs.len() && registry::rule_names(rs[i], name, higher, platform);
    lemma_protection_relaxes_with_tier(rs[i].category, lower, higher);
    assert(registry::rule_names(rs[i], name, lower, platform));
}

/// Every name of `small` is also a name of `big`.
pub open spec fn names_included(small: Seq<&'static str>, big: Seq<&'static str>) -> bool {
    forall|i: int| 0 <= i < small.len() ==> exists|j: int| 0 <= j < big.len() && big[j]@ == (#[trigger] small[i])@
}

proof fn lemma_under_any_join_included(cs: Comps, base: Comps, small: Seq<&'static str>, big: Seq<&'static str>)
    requires
        names_included(small, big),
        under_any_join(cs, base, small),
    ensures
        under_any_join(cs, base, big),
{
    let i = choose|i: int| 0 <= i < small.len() && under_join(cs, base, small[i]@);
    let j = choose|j: int| 0 <= j < big.len() && big[j]@ == small[i]@;
    assert(under_join(cs, base, big[j]@));
}

proof fn lemma_home_subdirs_shrink(lower: ScanTier, higher: ScanTier)
    requires
        tier_rank(lower) <= tier_rank(higher),
    ensures
        names_included(unix::home_subdirs_spec(higher), unix::home_subdirs_spec(lower)),
{
    let s = unix::home_subdirs_spec(higher);
    let b = unix::home_subdirs_spec(lower);
    assert forall|i: int| 0 <= i < s.len() implies exists|j: int| 0 <= j < b.len() && b[j]@ == (
    #[trigger] s[i])@ by {
        if tier_rank(higher) == tier_rank(lower) || tier_rank(lower) >= 2 {
            assert(b[i]@ == s[i]@);
        } else if tier_rank(higher) >= 2 && tier_rank(lower) == 1 {
            assert(b[1]@ == s[i]@);
        } else if tier_rank(higher) >= 2 {
            assert(b[2]@ == s[i]@);
        } else {
            assert(b[i + 1]@ == s[i]@);
        }
    }
}

proof fn lemma_profile_subdirs_shrink(lower: ScanTier, higher: ScanTier)
    requires
        tier_rank(lower) <= tier_rank(higher),
    ensures
        names_included(windows::profile_subdirs_spec(higher), windows::profile_subdirs_spec(lower)),
{
    let s = windows::profile_subdirs_spec(higher);
    let b = windows::profile_subdirs_spec(lower);
    assert forall|i: int| 0 <= i < s.len() implies exists|j: int| 0 <= j < b.len() && b[j]@ == (
    #[trigger] s[i])@ by {
        if tier_rank(higher) == tier_rank(lower) || tier_rank(lower) >= 1 {
            assert(b[i]@ == s[i]@);
        } else {
            assert(b[i + 1]@ == s[i]@);
        }
    }
}

proof fn lemma_unix_home_relax(path: Seq<char>, lower: ScanTier, higher: ScanTier, env: HomeEnv)
    requires
        tier_rank(lower) <= tier_rank(higher),
        unix::home_protects(path, higher, env),
    ensures
        unix::home_protects(path, lower, env),
{
    lemma_home_subdirs_shrink(lower, higher);
    let h = env.home->0;
    lemma_under_any_join_included(
        components(path),
        components(h@),
        unix::home_subdirs_spec(higher),
        unix::home_subdirs_spec(lower),
    );
}

proof fn lemma_windows_home_relax(path: Seq<char>, lower: ScanTier, higher: ScanTier, env: HomeEnv)
    requires
        tier_rank(lower) <= tier_rank(higher),
        windows::home_protects(path, higher, env),
    ensures
        windows::home_protects(path, lower, env),
{
    lemma_profile_subdirs_shrink(lower, higher);
    let cs = windows::win_components(path);
    if env.user_profile is Some && under_any_join(
        cs,
        windows::win_components(env.user_profile->0@),
        windows::profile_subdirs_spec(higher),
    ) {
        let u = env.user_profile->0;
        lemma_under_any_join_included(
            cs,
            windows::win_components(u@),
            windows::profile_subdirs_spec(higher),
            windows::profile_subdirs_spec(lower),
        );
    }
}

proof fn lemma_registry_home_relax(
    path: Seq<char>,
    lower: ScanTier,
    higher: ScanTier,
    platform: Platform,
    env: HomeEnv,
)
    requires
        tier_rank(lower) <= tier_rank(higher),
        registry::home_protects(path, higher, platform, env),
    ensures
        registry::home_protects(path, lower, platform, env),
{
    let cs = platform_components(platform, path);
    if platform == Platform::Windows {
        lemma_profile_subdirs_shrink(lower, higher);
        if registry::under_home(cs, env.user_profile, windows::profile_subdirs_spec(higher), platform) {
            let u = env.user_profile->0;
            lemma_under_any_join_included(
                cs,
                platform_components(platform, u@),
                windows::profile_subdirs_spec(higher),
                windows::profile_subdirs_spec(lower),
            );
        }
    } else {
        lemma_home_subdirs_shrink(lower, higher);
        let h = env.home->0;
        lemma_under_any_join_included(
            cs,
            platform_components(platform, h@),
            unix::home_subdirs_spec(higher),
            unix::home_subdirs_spec(lower),
        );
    }
}

/// A name protected at a higher tier is protected at every lower tier, on
/// every platform, by the platform tables and by the registry.
pub proof fn lemma_names_relax_with_tier(name: Seq<char>, lower: ScanTier, higher: ScanTier, platform: Platform)
    requires
        tier_rank(lower) <= tier_rank(higher),
    ensures
        os_names(name, higher, platform) ==> os_names(name, lower, platform),
        registry::names(name, higher, platform) ==> registry::names(name, lower, platform),
{
    if os_names(name, higher, platform) {
        if platform == Platform::Windows {
            lemma_windows_names_relax(name, lower, higher);
        } else {
            lemma_table_names_relax(unix::base_rules_spec(), name, lower, higher);
        }
    }
    if registry::names(name, higher, platform) {
        lemma_registry_names_relax(name, lower, higher, platform);
    }
}

/// Registry form of the tier law: a root protected at a higher tier is
/// protected at every lower tier, and a path safe at a lower tier is safe
/// at every higher tier, on every platform.
pub proof fn lemma_registry_relaxes_with_tier(
    path: Seq<char>,
    lower: ScanTier,
    higher: ScanTier,
    platform: Platform,
    env: HomeEnv,
)
    requires
        tier_rank(lower) <= tier_rank(higher),
    ensures
        registry::protected_root(path, higher, platform, env) ==> registry::protected_root(
            path,
            lower,
            platform,
            env,
        ),
        registry::safe(path, lower, platform, env) ==> registry::safe(path, higher, platform, env),
{
    let rs = registry::protected_path_rules_spec();
    let norm = registry::normalized(path, platform);
    if exists|i: int| 0 <= i < rs.len() && registry::rule_roots(rs[i], norm, higher, platform) {
        let i = choose|i: int| 0 <= i < rs.len() && registry::rule_roots(rs[i], norm, higher, platform);
        lemma_protection_relaxes_with_tier(rs[i].category, lower, higher);
        assert(registry::rule_roots(rs[i], norm, lower, platform));
    }
    if registry::home_protects(path, higher, platform, env) {
        lemma_registry_home_relax(path, lower, higher, platform, env);
    }
    if registry::has_protected_component(path, higher, platform) {
        let cs = platform_components(platform, path);
        let i = choose|i: int| 0 <= i < cs.len() && registry::names(cs[i], higher, platform);
        lemma_registry_names_relax(cs[i], lower, higher, platform);
        assert(registry::has_protected_component(path, lower, platform));
    }
}

/// A root protected at a higher tier is protected at every lower tier, on
/// every platform and whatever the environment.
pub proof fn lemma_protected_root_relaxes_with_tier(
    path: Seq<char>,
    lower: ScanTier,
    higher: ScanTier,
    platform: Platform,
    env: HomeEnv,
)
    requires
        tier_rank(lower) <= tier_rank(higher),
        os_protected_root(path, higher, platform, env),
    ensures
        os_protected_root(path, lower, platform, env),
{
    if windows::system_root(path, higher) {
        lemma_windows_system_root_relax(path, lower, higher);
    } else {
        match platform {
            Platform::Windows => {
                lemma_windows_home_relax(path, lower, higher, env);
            },
            Platform::MacOs => {
                if table_roots(macos::macos_rules_spec(), components(path), higher) {
                    lemma_table_roots_relax(macos::macos_rules_spec(), components(path), lower, higher);
                } else if table_roots(unix::base_rules_spec(), components(path), higher) {
                    lemma_table_roots_relax(unix::base_rules_spec(), components(path), lower, higher);
                } else {
                    lemma_unix_home_relax(path, lower, higher, env);
                }
            },
            Platform::Linux => {
                lemma_registry_relaxes_with_tier(path, lower, higher, platform, env);
            },
        }
    }
}

/// A path safe to delete at a lower tier stays safe at every higher tier,
/// on every platform and whatever the environment: higher tiers only
/// unlock more.
pub proof fn lemma_safety_grows_with_tier(
    path: Seq<char>,
    lower: ScanTier,
    higher: ScanTier,
    platform: Platform,
    env: HomeEnv,
)
    requires
        tier_rank(lower) <= tier_rank(higher),
        os_safe(path, lower, platform, env),
    ensures
        os_safe(path, higher, platform, env),
{
    if windows::system_root(path, higher) {
        lemma_windows_system_root_relax(path, lower, higher);
    }
    match platform {
        Platform::Windows => {
            if windows::protected_root(path, higher, env) {
                if windows::system_root(path, higher) {
                    lemma_windows_system_root_relax(path, lower, higher);
                } else {
                    lemma_windows_home_relax(path, lower, higher, env);
                }
            }
            if windows::has_protected_component(path, higher) {
                let cs = windows::win_components(path);
                let i = choose|i: int| 0 <= i < cs.len() && windows::names(cs[i], higher);
                lemma_windows_names_relax(cs[i], lower, higher);
                assert(windows::has_protected_component(path, lower));
            }
        },
        Platform::MacOs => {
            if macos::protected_root(path, higher, env) {
                if table_roots(macos::macos_rules_spec(), components(path), higher) {
                    lemma_table_roots_relax(macos::macos_rules_spec(), components(path), lower, higher);
                } else if table_roots(unix::base_rules_spec(), components(path), higher) {
                    lemma_table_roots_relax(unix::base_rules_spec(), components(path), lower, higher);
                } else {
                    lemma_unix_home_relax(path, lower, higher, env);
                }
            }
            if macos::has_protected_component(path, higher) {
                let cs = components(path);
                let i = choose|i: int| 0 <= i < cs.len() && table_names(unix::base_rules_spec(), cs[i], higher);
                lemma_table_names_relax(unix::base_rules_spec(), cs[i], lower, higher);
                assert(macos::has_protected_component(path, lower));
            }
        },
        Platform::Linux => {
            lemma_registry_relaxes_with_tier(path, lower, higher, platform, env);
        },
    }
}

} // verus!
