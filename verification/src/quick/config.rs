//! The fixed patterns of the quick command and the names it never enters.
use vstd::prelude::*;
use crate::text::{chars_eq_str, chars_of, has_prefix, is_prefix_of};

verus! {

/// How a pattern matches a directory name.
#[derive(Clone, Copy, Debug, PartialEq, Eq, Structural)]
pub enum PatternKind {
    /// The name equals the text.
    Exact,
    /// The name starts with the text.
    Prefix,
}

/// A directory-name pattern.
#[derive(Clone, Copy, Debug)]
pub struct Pattern {
    pub kind: PatternKind,
    pub text: &'static str,
}

/// The patterns of the quick command, in order.
pub open spec fn quick_patterns() -> Seq<Pattern> {
    seq![
        Pattern { kind: PatternKind::Exact, text: "target" },
        Pattern { kind: PatternKind::Exact, text: "node_modules" },
        Pattern { kind: PatternKind::Exact, text: "__pycache__" },
        Pattern { kind: PatternKind::Exact, text: ".venv" },
        Pattern { kind: PatternKind::Exact, text: "venv" },
        Pattern { kind: PatternKind::Exact, text: ".next" },
        Pattern { kind: PatternKind::Exact, text: ".nuxt" },
        Pattern { kind: PatternKind::Exact, text: "dist" },
        Pattern { kind: PatternKind::Exact, text: "build" },
        Pattern { kind: PatternKind::Exact, text: "out" },
        Pattern { kind: PatternKind::Exact, text: ".pytest_cache" },
        Pattern { kind: PatternKind::Exact, text: ".parcel-cache" },
        Pattern { kind: PatternKind::Exact, text: ".dart_tool" },
        Pattern { kind: PatternKind::Prefix, text: "cmake-build-" },
        Pattern { kind: PatternKind::Exact, text: "zig-cache" },
        Pattern { kind: PatternKind::Exact, text: "zig-out" },
    ]
}

/// The patterns of a quick scan.
#[derive(Clone)]
pub struct PurgeConfig {
    pub patterns: Vec<Pattern>,
}

impl PurgeConfig {
    /// The fixed configuration: build outputs, dependency folders and caches
    /// of the common toolchains.
    pub fn hardcoded() -> (r: Self)
        ensures
            r.patterns@ == quick_patterns(),
    {
        PurgeConfig {
            patterns: vec![
        Pattern { kind: PatternKind::Exact, text: "target" },
        Pattern { kind: PatternKind::Exact, text: "node_modules" },
        Pattern { kind: PatternKind::Exact, text: "__pycache__" },
        Pattern { kind: PatternKind::Exact, text: ".venv" },
        Pattern { kind: PatternKind::Exact, text: "venv" },
        Pattern { kind: PatternKind::Exact, text: ".next" },
        Pattern { kind: PatternKind::Exact, text: ".nuxt" },
        Pattern { kind: PatternKind::Exact, text: "dist" },
        Pattern { kind: PatternKind::Exact, text: "build" },
        Pattern { kind: PatternKind::Exact, text: "out" },
        Pattern { kind: PatternKind::Exact, text: ".pytest_cache" },
        Pattern { kind: PatternKind::Exact, text: ".parcel-cache" },
        Pattern { kind: PatternKind::Exact, text: ".dart_tool" },
        Pattern { kind: PatternKind::Prefix, text: "cmake-build-" },
        Pattern { kind: PatternKind::Exact, text: "zig-cache" },
        Pattern { kind: PatternKind::Exact, text: "zig-out" },
            ],
        }
    }

    /// The patterns of this configuration.
    pub fn patterns(&self) -> (r: &[Pattern])
        ensures
            r@ == self.patterns@,
    {
        self.patterns.as_slice()
    }
}

/// The text of an optional name.
pub open spec fn opt_text(name: Option<&str>) -> Option<Seq<char>> {
    match name {
        Some(s) => Some(s@),
        None => None,
    }
}

/// `name` matches `p`.
pub open spec fn pattern_matches(p: Pattern, name: Seq<char>) -> bool {
    match p.kind {
        PatternKind::Exact => name == p.text@,
        PatternKind::Prefix => is_prefix_of(p.text@, name),
    }
}

/// `name` is text and matches one of `patterns`.
pub open spec fn any_matches(name: Option<Seq<char>>, patterns: Seq<Pattern>) -> bool {
    match name {
        Some(n) => exists|i: int| 0 <= i < patterns.len() && pattern_matches(#[trigger] patterns[i], n),
        None => false,
    }
}

/// Whether the directory name `name` (`None` when it is not valid text)
/// matches one of `patterns`.
pub fn matches_any_pattern(name: Option<&str>, patterns: &[Pattern]) -> (r: bool)
    ensures
        r == any_matches(opt_text(name), patterns@),
{
    let s = match name {
        Some(s) => s,
        None => return false,
    };
    assert(opt_text(name) == Some(s@));
    let cs = chars_of(s);
    let n = patterns.len();
    for i in 0..n
        invariant
            n == patterns@.len(),
            cs@ == s@,
            opt_text(name) == Some(s@),
            forall|k: int| 0 <= k < i ==> !pattern_matches(#[trigger] patterns@[k], s@),
    {
        let p = patterns[i];
        let hit = match p.kind {
            PatternKind::Exact => chars_eq_str(cs.as_slice(), p.text),
            PatternKind::Prefix => {
                let t = chars_of(p.text);
                has_prefix(cs.as_slice(), t.as_slice())
            },
        };
        if hit {
            assert(pattern_matches(patterns@[i as int], s@));
            assert(opt_text(name) == Some(s@));
            return true;
        }
    }
    false
}

/// The names the quick scan never enters or deletes: version control,
/// editor settings and environment files.
pub open spec fn protected_name(n: Seq<char>) -> bool {
    ||| n == ".git"@
    ||| n == ".vscode"@
    ||| n == ".idea"@
    ||| n == ".cursor"@
    ||| n == ".env"@
    ||| n == ".env.local"@
    ||| n == ".gitignore"@
    ||| n == ".editorconfig"@
    ||| n == ".dockerignore"@
    ||| n == ".github"@
}

/// Whether `name` (`None` when it is not valid text) is a protected name.
pub fn is_protected_entry_name(name: Option<&str>) -> (r: bool)
    ensures
        r == match name {
            Some(s) => protected_name(s@),
            None => false,
        },
{
    let s = match name {
        Some(s) => s,
        None => return false,
    };
    let cs = chars_of(s);
    let c = cs.as_slice();
    if chars_eq_str(c, ".git") {
        return true;
    }
    if chars_eq_str(c, ".vscode") {
        return true;
    }
    if chars_eq_str(c, ".idea") {
        return true;
    }
    if chars_eq_str(c, ".cursor") {
        return true;
    }
    if chars_eq_str(c, ".env") {
        return true;
    }
    if chars_eq_str(c, ".env.local") {
        return true;
    }
    if chars_eq_str(c, ".gitignore") {
        return true;
    }
    if chars_eq_str(c, ".editorconfig") {
        return true;
    }
    if chars_eq_str(c, ".dockerignore") {
        return true;
    }
    if chars_eq_str(c, ".github") {
        return true;
    }
    false
}

} // verus!
