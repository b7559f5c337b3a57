//! Command-line options, and the choices they determine.
use vstd::prelude::*;
use crate::domain::traits::ScanTier;
use crate::text::chars_eq_str;

verus! {

/// The options of the command line.
#[derive(Clone, Debug)]
pub struct Cli {
    /// Only scan and show what can be recovered, without deleting.
    pub check: bool,
    /// Delete permanently instead of moving to the trash bin.
    pub permanent: bool,
    /// Skip the confirmation prompt.
    pub yes: bool,
    /// Include global tool caches (~/.cargo, ~/.npm, etc).
    pub cache: bool,
    /// Include application caches (macOS Library/Caches, Windows AppData).
    pub deep: bool,
    /// Include system caches (Docker, apt, pacman).
    pub aggressive: bool,
    /// The path to scan.
    pub path: String,
}

/// The tier the flags select: the most thorough one asked for.
pub open spec fn selected_tier(aggressive: bool, deep: bool, cache: bool) -> ScanTier {
    if aggressive {
        ScanTier::Aggressive
    } else if deep {
        ScanTier::Deep
    } else if cache {
        ScanTier::Cache
    } else {
        ScanTier::Project
    }
}

impl Cli {
    /// The tier these options select.
    pub fn tier(&self) -> (r: ScanTier)
        ensures
            r == selected_tier(self.aggressive, self.deep, self.cache),
    {
        if self.aggressive {
            ScanTier::Aggressive
        } else if self.deep {
            ScanTier::Deep
        } else if self.cache {
            ScanTier::Cache
        } else {
            ScanTier::Project
        }
    }
}

/// The mode of the quick command line: `dev-purge [--check]`.
#[derive(Clone, Copy, Debug, PartialEq, Eq, Structural)]
pub enum Mode {
    Default,
    Check,
}

/// The arguments do not fit `dev-purge [--check]`.
#[derive(Clone, Copy, Debug, PartialEq, Eq, Structural)]
pub struct UsageError;

/// The mode the arguments select, or a usage error.
pub open spec fn mode_of(args: Seq<String>) -> Result<Mode, UsageError> {
    if args.len() == 0 {
        Ok(Mode::Default)
    } else if args.len() == 1 && args[0]@ == "--check"@ {
        Ok(Mode::Check)
    } else {
        Err(UsageError)
    }
}

/// Parses the arguments of `dev-purge [--check]` (without the program name).
pub fn parse_mode(args: &Vec<String>) -> (r: Result<Mode, UsageError>)
    ensures
        r == mode_of(args@),
{
    if args.len() == 0 {
        return Ok(Mode::Default);
    }
    if args.len() == 1 {
        let a = crate::text::chars_of(args[0].as_str());
        if chars_eq_str(a.as_slice(), "--check") {
            return Ok(Mode::Check);
        }
    }
    Err(UsageError)
}

} // verus!
