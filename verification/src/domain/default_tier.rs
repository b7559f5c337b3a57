//! The safety check at the default tier, for callers that do not choose one.
use vstd::prelude::*;
use crate::domain::impls::{OsSafetyChecker, checker_safe};
use crate::domain::traits::ScanTier;

verus! {

/// Checking paths at the default tier, `Project`.
pub trait DefaultTierSafety {
    /// True if the path is safe to delete at the default tier.
    fn is_safe(&self, path: &str) -> bool;
}

impl DefaultTierSafety for OsSafetyChecker {
    /// Whether `path` is safe to delete at the default tier, `Project`.
    fn is_safe(&self, path: &str) -> (r: bool)
        ensures
            r == checker_safe(path@, ScanTier::Project, self.platform, self.env),
    {
        self.is_safe_at(path, ScanTier::Project)
    }
}

} // verus!
