//! Domain types and the extension traits for scanning, safety checks and
//! cleaning.
//!
//! Implement [`Scanner`], [`SafetyChecker`] or [`Cleaner`] to plug a new
//! scanning strategy, safety rule set or cleanup method into the pipeline.
use vstd::prelude::*;

verus! {

/// Type of artifact: a physical path, or a resource managed through the
/// Docker API.
#[derive(Debug, Clone)]
pub enum ArtifactType {
    Physical,
    /// Image id.
    DockerImage(String),
    /// Container id.
    DockerContainer(String),
    /// Volume name.
    DockerVolume(String),
}

/// Categories of files and directories that can be cleaned up.
#[derive(Debug, Clone, Copy, PartialEq, Eq, Structural)]
pub enum CleanupCategory {
    BuildArtifact,
    Cache,
    Log,
    Temp,
    Other,
}

/// Result of scanning a single path for potential cleanup.
#[derive(Debug, Clone)]
pub struct ScanResult {
    pub path: String,
    pub size_bytes: u64,
    pub category: CleanupCategory,
    pub artifact_type: ArtifactType,
}

/// Statistics from a cleanup operation.
#[derive(Debug, Clone)]
pub struct CleanupStats {
    pub total_bytes_freed: u64,
    pub items_deleted: usize,
    pub errors: Vec<String>,
}

/// Tiers of scanning depth and safety, from the safest to the most thorough.
#[derive(Debug, Clone, Copy, PartialEq, Eq, PartialOrd, Ord, Structural)]
pub enum ScanTier {
    /// Only project-level build artifacts (safest).
    Project,
    /// Include global tool caches (e.g., ~/.cargo, ~/.npm).
    Cache,
    /// Include application caches (e.g., Library/Caches, AppData).
    Deep,
    /// Include system-level caches (e.g., Docker, package managers).
    Aggressive,
}

/// Position of a tier in the order Project < Cache < Deep < Aggressive.
pub open spec fn tier_rank(t: ScanTier) -> int {
    match t {
        ScanTier::Project => 0,
        ScanTier::Cache => 1,
        ScanTier::Deep => 2,
        ScanTier::Aggressive => 3,
    }
}

impl ScanTier {
    /// Position of the tier in the order Project < Cache < Deep < Aggressive.
    pub fn rank(&self) -> (r: u8)
        ensures
            r == tier_rank(*self),
    {
        match self {
            ScanTier::Project => 0,
            ScanTier::Cache => 1,
            ScanTier::Deep => 2,
            ScanTier::Aggressive => 3,
        }
    }

    /// `self` comes no later than `other` in the tier order.
    pub fn at_most(&self, other: &ScanTier) -> (r: bool)
        ensures
            r == (tier_rank(*self) <= tier_rank(*other)),
    {
        self.rank() <= other.rank()
    }
}

/// An error reported by a scanner or a cleaner.
#[derive(Debug, Clone)]
pub struct OperationError {
    pub message: String,
}

/// Scanning directories for cleanup candidates.
pub trait Scanner {
    /// Scan the given root directory and return potential cleanup targets.
    fn scan(&self, root: &str) -> Result<Vec<ScanResult>, OperationError>;
}

/// Checking whether paths are safe to delete.
pub trait SafetyChecker {
    /// True if the path is safe to delete at the given tier.
    fn is_safe(&self, path: &str, tier: ScanTier) -> bool;
}

/// Performing cleanup operations.
pub trait Cleaner {
    /// Clean up the given scan results.  With `dry_run` only simulate; with
    /// `permanent` delete instead of moving to the trash.
    fn clean(&self, results: &[ScanResult], dry_run: bool, permanent: bool) -> Result<
        CleanupStats,
        OperationError,
    >;
}

} // verus!
