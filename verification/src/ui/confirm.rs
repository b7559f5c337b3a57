//! The answers the prompts accept.
use vstd::prelude::*;
use crate::text::{chars_eq_str, trim_chars, trimmed};

verus! {

/// The answer confirms the deletion: `y` or `Y`, white space around it
/// ignored.
pub open spec fn confirms(input: Seq<char>) -> bool {
    trimmed(input) == "y"@ || trimmed(input) == "Y"@
}

/// Whether the line read at the `[y/N]` prompt confirms the deletion.
pub fn is_confirmation(input: &str) -> (r: bool)
    ensures
        r == confirms(input@),
{
    let t = trim_chars(input);
    chars_eq_str(t.as_slice(), "y") || chars_eq_str(t.as_slice(), "Y")
}

/// The answer accepts aggressive mode: exactly `yes i understand`, white
/// space around it ignored.
pub open spec fn accepts_aggressive(input: Seq<char>) -> bool {
    trimmed(input) == "yes i understand"@
}

/// Whether the line read at the aggressive-mode warning accepts it.
pub fn is_aggressive_consent(input: &str) -> (r: bool)
    ensures
        r == accepts_aggressive(input@),
{
    let t = trim_chars(input);
    chars_eq_str(t.as_slice(), "yes i understand")
}

} // verus!
