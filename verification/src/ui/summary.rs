//! The lines that frame a run: the title, the mode, and the summary of what
//! was recovered.
use vstd::prelude::*;
use crate::domain::traits::ScanTier;
use crate::text::{chars_of, string_of};
use crate::ui::preview::{decimal, format_bytes, format_bytes_spec, push_decimal};

verus! {

/// The title shown before a scan.
pub open spec fn title_text() -> Seq<char> {
    "🛡️  DEV-PURGE:  Smart Cleanup"@
}

/// The line that names the mode a tier selects.
pub open spec fn mode_text(tier: ScanTier) -> Seq<char> {
    match tier {
        ScanTier::Project => "🔍 Mode: Project Caches (safe)"@,
        ScanTier::Cache => "🔍 Mode: Global Caches (+ ~/.cargo, ~/.npm, etc)"@,
        ScanTier::Deep => "🔍 Mode: Deep Clean (+ Library/Caches, AppData)"@,
        ScanTier::Aggressive => "🔍 Mode: AGGRESSIVE (System Caches + Docker)"@,
    }
}

/// The summary after a cleanup: the recovered bytes in human units, and
/// the number of errors when there were any.
pub open spec fn summary_text(recovered: nat, errors: nat) -> Seq<char> {
    let head = "✓ Recovered "@ + format_bytes_spec(recovered);
    if errors == 0 {
        head
    } else {
        head + "  ("@ + decimal(errors) + " "@ + (if errors == 1 {
            "error"@
        } else {
            "errors"@
        }) + " — see above)"@
    }
}

/// The title shown before a scan.
pub fn title_line() -> (r: String)
    ensures
        r@ == title_text(),
{
    string_of(chars_of("🛡️  DEV-PURGE:  Smart Cleanup").as_slice())
}

/// The line that names the mode `tier` selects.
pub fn mode_line(tier: ScanTier) -> (r: String)
    ensures
        r@ == mode_text(tier),
{
    let t = match tier {
        ScanTier::Project => "🔍 Mode: Project Caches (safe)",
        ScanTier::Cache => "🔍 Mode: Global Caches (+ ~/.cargo, ~/.npm, etc)",
        ScanTier::Deep => "🔍 Mode: Deep Clean (+ Library/Caches, AppData)",
        ScanTier::Aggressive => "🔍 Mode: AGGRESSIVE (System Caches + Docker)",
    };
    string_of(chars_of(t).as_slice())
}

/// Appends the characters of `s` to `out`.
fn push_str(out: &mut Vec<char>, s: &str)
    ensures
        final(out)@ == old(out)@ + s@,
{
    let mut v = chars_of(s);
    out.append(&mut v);
}

/// The summary line after a cleanup that recovered `recovered` bytes with
/// `errors` failures.
pub fn summary_line(recovered: u64, errors: u64) -> (r: String)
    ensures
        r@ == summary_text(recovered as nat, errors as nat),
{
    let mut out: Vec<char> = Vec::new();
    push_str(&mut out, "✓ Recovered ");
    let b = format_bytes(recovered);
    push_str(&mut out, b.as_str());
    if errors != 0 {
        push_str(&mut out, "  (");
        push_decimal(&mut out, errors);
        push_str(&mut out, " ");
        if errors == 1 {
            push_str(&mut out, "error");
        } else {
            push_str(&mut out, "errors");
        }
        push_str(&mut out, " — see above)");
    }
    assert(out@ =~= summary_text(recovered as nat, errors as nat));
    string_of(out.as_slice())
}

} // verus!
