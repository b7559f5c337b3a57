//! Linux path protection: the registry's rules for Linux.
use vstd::prelude::*;
use crate::domain::os::{HomeEnv, Platform};
use crate::domain::registry;
use crate::domain::traits::ScanTier;

verus! {

/// Whether `path` may be deleted on Linux at `tier`.
pub fn is_safe(path: &str, tier: ScanTier, env: &HomeEnv) -> (r: bool)
    ensures
        r == registry::safe(path@, tier, Platform::Linux, *env),
{
    registry::is_safe(path, tier, Platform::Linux, env)
}

/// Whether `path` is a protected root on Linux at `tier`.
pub fn is_protected_root(path: &str, tier: ScanTier, env: &HomeEnv) -> (r: bool)
    ensures
        r == registry::protected_root(path@, tier, Platform::Linux, *env),
{
    registry::is_protected_root(path, tier, Platform::Linux, env)
}

} // verus!
