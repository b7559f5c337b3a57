//! The registry of artifact patterns: which directory names are build
//! outputs or caches, and from which tier on they are collected.
//!
//! A pattern matches a directory name exactly, as a prefix, or exactly but
//! only when a sibling entry marks the directory (a `.csproj` file next to a
//! `bin` directory, say).
use vstd::prelude::*;
use crate::domain::traits::{ScanTier, tier_rank};
use crate::text::{chars_eq_str, chars_of, has_prefix, has_suffix, is_prefix_of, is_suffix_of};

verus! {

/// How a pattern's name is compared with a directory name.
#[derive(Clone, Copy, Debug)]
pub enum PatternKind {
    /// Match the directory name exactly.
    Exact,
    /// Match names that start with the pattern's name (e.g. `cmake-build-`).
    Prefix,
    /// Match exactly, and only if the parent directory holds a marker: a
    /// name ending in the marker when the marker starts with `.`, else a
    /// name equal to it.
    Guarded(&'static str),
}

/// The ecosystem a pattern belongs to.
#[derive(Clone, Copy, Debug, PartialEq, Eq, Structural)]
pub enum Category {
    Core,
    Python,
    Node,
    Go,
    Java,
    DotNet,
    Mobile,
    Infra,
    Docker,
    Other,
}

/// One artifact pattern.
#[derive(Clone, Copy, Debug)]
pub struct Pattern {
    pub category: Category,
    pub kind: PatternKind,
    pub name: &'static str,
    pub tier: ScanTier,
    pub description: &'static str,
}

/// The registry of artifact patterns.
pub open spec fn artifact_registry_spec() -> Seq<Pattern> {
    seq![
        Pattern {
            category: Category::Core,
            kind: PatternKind::Exact,
            name: "target",
            tier: ScanTier::Project,
            description: "Rust build artifacts",
        },
        Pattern {
            category: Category::Core,
            kind: PatternKind::Exact,
            name: "dist",
            tier: ScanTier::Project,
            description: "Generic distribution folder",
        },
        Pattern {
            category: Category::Core,
            kind: PatternKind::Exact,
            name: "build",
            tier: ScanTier::Project,
            description: "Generic build artifacts",
        },
        Pattern {
            category: Category::Core,
            kind: PatternKind::Exact,
            name: "out",
            tier: ScanTier::Project,
            description: "Generic output directory",
        },
        Pattern {
            category: Category::Python,
            kind: PatternKind::Exact,
            name: "__pycache__",
            tier: ScanTier::Project,
            description: "Python bytecode cache",
        },
        Pattern {
            category: Category::Python,
            kind: PatternKind::Exact,
            name: ".venv",
            tier: ScanTier::Project,
            description: "Python virtual environment",
        },
        Pattern {
            category: Category::Python,
            kind: PatternKind::Exact,
            name: "venv",
            tier: ScanTier::Project,
            description: "Python virtual environment",
        },
        Pattern {
            category: Category::Python,
            kind: PatternKind::Exact,
            name: ".pytest_cache",
            tier: ScanTier::Project,
            description: "Pytest execution cache",
        },
        Pattern {
            category: Category::Python,
            kind: PatternKind::Exact,
            name: ".mypy_cache",
            tier: ScanTier::Project,
            description: "Mypy type check cache",
        },
        Pattern {
            category: Category::Python,
            kind: PatternKind::Exact,
            name: "pip",
            tier: ScanTier::Cache,
            description: "Pip cache directory",
        },
        Pattern {
            category: Category::Node,
            kind: PatternKind::Exact,
            name: "node_modules",
            tier: ScanTier::Project,
            description: "Node.js dependencies",
        },
        Pattern {
            category: Category::Node,
            kind: PatternKind::Exact,
            name: ".next",
            tier: ScanTier::Project,
            description: "Next.js build artifacts",
        },
        Pattern {
            category: Category::Node,
            kind: PatternKind::Exact,
            name: ".nuxt",
            tier: ScanTier::Project,
            description: "Next.js build artifacts",
        },
        Pattern {
            category: Category::Node,
            kind: PatternKind::Exact,
            name: ".turbo",
            tier: ScanTier::Project,
            description: "Turborepo build cache",
        },
        Pattern {
            category: Category::Node,
            kind: PatternKind::Exact,
            name: ".vite",
            tier: ScanTier::Project,
            description: "Vite build cache",
        },
        Pattern {
            category: Category::Node,
            kind: PatternKind::Exact,
            name: "_cacache",
            tier: ScanTier::Cache,
            description: "npm cache internals",
        },
        Pattern {
            category: Category::Go,
            kind: PatternKind::Exact,
            name: "vendor",
            tier: ScanTier::Project,
            description: "Dependency vendor directory",
        },
        Pattern {
            category: Category::Go,
            kind: PatternKind::Exact,
            name: "cache",
            tier: ScanTier::Cache,
            description: "Go build cache",
        },
        Pattern {
            category: Category::Java,
            kind: PatternKind::Exact,
            name: ".gradle",
            tier: ScanTier::Project,
            description: "Gradle build cache",
        },
        Pattern {
            category: Category::Java,
            kind: PatternKind::Exact,
            name: ".kotlin",
            tier: ScanTier::Project,
            description: "Kotlin compiler metadata",
        },
        Pattern {
            category: Category::DotNet,
            kind: PatternKind::Guarded(".csproj"),
            name: "bin",
            tier: ScanTier::Project,
            description: ".NET binary output",
        },
        Pattern {
            category: Category::DotNet,
            kind: PatternKind::Guarded(".csproj"),
            name: "obj",
            tier: ScanTier::Project,
            description: ".NET intermediate artifacts",
        },
        Pattern {
            category: Category::DotNet,
            kind: PatternKind::Guarded(".sln"),
            name: "bin",
            tier: ScanTier::Project,
            description: ".NET solution binaries",
        },
        Pattern {
            category: Category::DotNet,
            kind: PatternKind::Guarded(".sln"),
            name: "obj",
            tier: ScanTier::Project,
            description: ".NET solution intermediates",
        },
        Pattern {
            category: Category::Mobile,
            kind: PatternKind::Exact,
            name: ".dart_tool",
            tier: ScanTier::Project,
            description: "Dart/Flutter metadata",
        },
        Pattern {
            category: Category::Mobile,
            kind: PatternKind::Exact,
            name: "DerivedData",
            tier: ScanTier::Project,
            description: "Xcode build artifacts",
        },
        Pattern {
            category: Category::Infra,
            kind: PatternKind::Exact,
            name: ".terraform",
            tier: ScanTier::Project,
            description: "Terraform state/plugins",
        },
        Pattern {
            category: Category::Infra,
            kind: PatternKind::Exact,
            name: "zig-cache",
            tier: ScanTier::Project,
            description: "Zig build cache",
        },
        Pattern {
            category: Category::Infra,
            kind: PatternKind::Exact,
            name: "zig-out",
            tier: ScanTier::Project,
            description: "Zig binary output",
        },
        Pattern {
            category: Category::Docker,
            kind: PatternKind::Exact,
            name: ".docker",
            tier: ScanTier::Project,
            description: "Local Docker configuration/context",
        },
        Pattern {
            category: Category::Docker,
            kind: PatternKind::Prefix,
            name: "docker-build-",
            tier: ScanTier::Project,
            description: "Docker build artifacts",
        },
        Pattern {
            category: Category::Other,
            kind: PatternKind::Prefix,
            name: "cmake-build-",
            tier: ScanTier::Project,
            description: "CMake build directory",
        },
        Pattern {
            category: Category::Core,
            kind: PatternKind::Exact,
            name: "registry",
            tier: ScanTier::Cache,
            description: "Cargo registry cache",
        },
        Pattern {
            category: Category::Core,
            kind: PatternKind::Exact,
            name: "index",
            tier: ScanTier::Cache,
            description: "Cargo index cache",
        },
        Pattern {
            category: Category::Core,
            kind: PatternKind::Exact,
            name: "db",
            tier: ScanTier::Cache,
            description: "Cargo git database",
        },
        Pattern {
            category: Category::Core,
            kind: PatternKind::Exact,
            name: "mod",
            tier: ScanTier::Cache,
            description: "Go module cache",
        },
        Pattern {
            category: Category::Core,
            kind: PatternKind::Exact,
            name: "Caches",
            tier: ScanTier::Deep,
            description: "System/App cache directory",
        },
        Pattern {
            category: Category::Core,
            kind: PatternKind::Exact,
            name: "Temp",
            tier: ScanTier::Deep,
            description: "Temporary files",
        },
        Pattern {
            category: Category::Core,
            kind: PatternKind::Exact,
            name: ".cache",
            tier: ScanTier::Deep,
            description: "User cache directory",
        },
        Pattern {
            category: Category::Other,
            kind: PatternKind::Exact,
            name: "archives",
            tier: ScanTier::Aggressive,
            description: "apt package archives",
        },
        Pattern {
            category: Category::Other,
            kind: PatternKind::Exact,
            name: "pkg",
            tier: ScanTier::Aggressive,
            description: "pacman/yay package cache",
        },
    ]
}

/// The registry of artifact patterns.
pub fn artifact_registry() -> (r: Vec<Pattern>)
    ensures
        r@ == artifact_registry_spec(),
{
    vec![
        Pattern {
            category: Category::Core,
            kind: PatternKind::Exact,
            name: "target",
            tier: ScanTier::Project,
            description: "Rust build artifacts",
        },
        Pattern {
            category: Category::Core,
            kind: PatternKind::Exact,
            name: "dist",
            tier: ScanTier::Project,
            description: "Generic distribution folder",
        },
        Pattern {
            category: Category::Core,
            kind: PatternKind::Exact,
            name: "build",
            tier: ScanTier::Project,
            description: "Generic build artifacts",
        },
        Pattern {
            category: Category::Core,
            kind: PatternKind::Exact,
            name: "out",
            tier: ScanTier::Project,
            description: "Generic output directory",
        },
        Pattern {
            category: Category::Python,
            kind: PatternKind::Exact,
            name: "__pycache__",
            tier: ScanTier::Project,
            description: "Python bytecode cache",
        },
        Pattern {
            category: Category::Python,
            kind: PatternKind::Exact,
            name: ".venv",
            tier: ScanTier::Project,
            description: "Python virtual environment",
        },
        Pattern {
            category: Category::Python,
            kind: PatternKind::Exact,
            name: "venv",
            tier: ScanTier::Project,
            description: "Python virtual environment",
        },
        Pattern {
            category: Category::Python,
            kind: PatternKind::Exact,
            name: ".pytest_cache",
            tier: ScanTier::Project,
            description: "Pytest execution cache",
        },
        Pattern {
            category: Category::Python,
            kind: PatternKind::Exact,
            name: ".mypy_cache",
            tier: ScanTier::Project,
            description: "Mypy type check cache",
        },
        Pattern {
            category: Category::Python,
            kind: PatternKind::Exact,
            name: "pip",
            tier: ScanTier::Cache,
            description: "Pip cache directory",
        },
        Pattern {
            category: Category::Node,
            kind: PatternKind::Exact,
            name: "node_modules",
            tier: ScanTier::Project,
            description: "Node.js dependencies",
        },
        Pattern {
            category: Category::Node,
            kind: PatternKind::Exact,
            name: ".next",
            tier: ScanTier::Project,
            description: "Next.js build artifacts",
        },
        Pattern {
            category: Category::Node,
            kind: PatternKind::Exact,
            name: ".nuxt",
            tier: ScanTier::Project,
            description: "Next.js build artifacts",
        },
        Pattern {
            category: Category::Node,
            kind: PatternKind::Exact,
            name: ".turbo",
            tier: ScanTier::Project,
            description: "Turborepo build cache",
        },
        Pattern {
            category: Category::Node,
            kind: PatternKind::Exact,
            name: ".vite",
            tier: ScanTier::Project,
            description: "Vite build cache",
        },
        Pattern {
            category: Category::Node,
            kind: PatternKind::Exact,
            name: "_cacache",
            tier: ScanTier::Cache,
            description: "npm cache internals",
        },
        Pattern {
            category: Category::Go,
            kind: PatternKind::Exact,
            name: "vendor",
            tier: ScanTier::Project,
            description: "Dependency vendor directory",
        },
        Pattern {
            category: Category::Go,
            kind: PatternKind::Exact,
            name: "cache",
            tier: ScanTier::Cache,
            description: "Go build cache",
        },
        Pattern {
            category: Category::Java,
            kind: PatternKind::Exact,
            name: ".gradle",
            tier: ScanTier::Project,
            description: "Gradle build cache",
        },
        Pattern {
            category: Category::Java,
            kind: PatternKind::Exact,
            name: ".kotlin",
            tier: ScanTier::Project,
            description: "Kotlin compiler metadata",
        },
        Pattern {
            category: Category::DotNet,
            kind: PatternKind::Guarded(".csproj"),
            name: "bin",
            tier: ScanTier::Project,
            description: ".NET binary output",
        },
        Pattern {
            category: Category::DotNet,
            kind: PatternKind::Guarded(".csproj"),
            name: "obj",
            tier: ScanTier::Project,
            description: ".NET intermediate artifacts",
        },
        Pattern {
            category: Category::DotNet,
            kind: PatternKind::Guarded(".sln"),
            name: "bin",
            tier: ScanTier::Project,
            description: ".NET solution binaries",
        },
        Pattern {
            category: Category::DotNet,
            kind: PatternKind::Guarded(".sln"),
            name: "obj",
            tier: ScanTier::Project,
            description: ".NET solution intermediates",
        },
        Pattern {
            category: Category::Mobile,
            kind: PatternKind::Exact,
            name: ".dart_tool",
            tier: ScanTier::Project,
            description: "Dart/Flutter metadata",
        },
        Pattern {
            category: Category::Mobile,
            kind: PatternKind::Exact,
            name: "DerivedData",
            tier: ScanTier::Project,
            description: "Xcode build artifacts",
        },
        Pattern {
            category: Category::Infra,
            kind: PatternKind::Exact,
            name: ".terraform",
            tier: ScanTier::Project,
            description: "Terraform state/plugins",
        },
        Pattern {
            category: Category::Infra,
            kind: PatternKind::Exact,
            name: "zig-cache",
            tier: ScanTier::Project,
            description: "Zig build cache",
        },
        Pattern {
            category: Category::Infra,
            kind: PatternKind::Exact,
            name: "zig-out",
            tier: ScanTier::Project,
            description: "Zig binary output",
        },
        Pattern {
            category: Category::Docker,
            kind: PatternKind::Exact,
            name: ".docker",
            tier: ScanTier::Project,
            description: "Local Docker configuration/context",
        },
        Pattern {
            category: Category::Docker,
            kind: PatternKind::Prefix,
            name: "docker-build-",
            tier: ScanTier::Project,
            description: "Docker build artifacts",
        },
        Pattern {
            category: Category::Other,
            kind: PatternKind::Prefix,
            name: "cmake-build-",
            tier: ScanTier::Project,
            description: "CMake build directory",
        },
        Pattern {
            category: Category::Core,
            kind: PatternKind::Exact,
            name: "registry",
            tier: ScanTier::Cache,
            description: "Cargo registry cache",
        },
        Pattern {
            category: Category::Core,
            kind: PatternKind::Exact,
            name: "index",
            tier: ScanTier::Cache,
            description: "Cargo index cache",
        },
        Pattern {
            category: Category::Core,
            kind: PatternKind::Exact,
            name: "db",
            tier: ScanTier::Cache,
            description: "Cargo git database",
        },
        Pattern {
            category: Category::Core,
            kind: PatternKind::Exact,
            name: "mod",
            tier: ScanTier::Cache,
            description: "Go module cache",
        },
        Pattern {
            category: Category::Core,
            kind: PatternKind::Exact,
            name: "Caches",
            tier: ScanTier::Deep,
            description: "System/App cache directory",
        },
        Pattern {
            category: Category::Core,
            kind: PatternKind::Exact,
            name: "Temp",
            tier: ScanTier::Deep,
            description: "Temporary files",
        },
        Pattern {
            category: Category::Core,
            kind: PatternKind::Exact,
            name: ".cache",
            tier: ScanTier::Deep,
            description: "User cache directory",
        },
        Pattern {
            category: Category::Other,
            kind: PatternKind::Exact,
            name: "archives",
            tier: ScanTier::Aggressive,
            description: "apt package archives",
        },
        Pattern {
            category: Category::Other,
            kind: PatternKind::Exact,
            name: "pkg",
            tier: ScanTier::Aggressive,
            description: "pacman/yay package cache",
        },
    ]
}

/// Access to the whole pattern registry.
pub struct PurgeConfig;

impl PurgeConfig {
    /// Every pattern of the registry.
    pub fn patterns() -> (r: Vec<Pattern>)
        ensures
            r@ == artifact_registry_spec(),
    {
        artifact_registry()
    }
}

/// The sibling name `s` carries the guard marker `m`.
pub open spec fn marker_matches(m: Seq<char>, s: Seq<char>) -> bool {
    if m.len() > 0 && m[0] == '.' {
        is_suffix_of(m, s)
    } else {
        s == m
    }
}

/// Some name of `siblings` carries the marker `m`.
pub open spec fn some_sibling_marked(m: Seq<char>, siblings: Seq<String>) -> bool {
    exists|j: int| 0 <= j < siblings.len() && marker_matches(m, siblings[j]@)
}

/// Pattern `p` matches the directory name `name` whose parent holds the
/// entries `siblings`.
pub open spec fn pattern_matches(p: Pattern, name: Seq<char>, siblings: Seq<String>) -> bool {
    match p.kind {
        PatternKind::Exact => p.name@ == name,
        PatternKind::Prefix => is_prefix_of(p.name@, name),
        PatternKind::Guarded(m) => p.name@ == name && some_sibling_marked(m@, siblings),
    }
}

/// Some pattern of `ps` matches.
pub open spec fn any_pattern_matches(ps: Seq<Pattern>, name: Seq<char>, siblings: Seq<String>) -> bool {
    exists|i: int| 0 <= i < ps.len() && pattern_matches(ps[i], name, siblings)
}

/// Whether some name of `siblings` carries the marker `m`.
fn sibling_marked(m: &str, siblings: &[String]) -> (r: bool)
    ensures
        r == some_sibling_marked(m@, siblings@),
{
    let mc = chars_of(m);
    let dot = mc.len() > 0 && mc[0] == '.';
    let n = siblings.len();
    for j in 0..n
        invariant
            n == siblings@.len(),
            mc@ == m@,
            dot == (m@.len() > 0 && m@[0] == '.'),
            forall|k: int| 0 <= k < j ==> !marker_matches(m@, siblings@[k]@),
    {
        let s = chars_of(siblings[j].as_str());
        let hit = if dot {
            has_suffix(s.as_slice(), mc.as_slice())
        } else {
            crate::text::chars_eq(s.as_slice(), mc.as_slice())
        };
        if hit {
            assert(marker_matches(m@, siblings@[j as int]@));
            return true;
        }
    }
    false
}

/// Whether pattern `p` matches the directory name `name` with parent
/// entries `siblings`.
pub fn pattern_matches_exec(p: &Pattern, name: &[char], siblings: &[String]) -> (r: bool)
    ensures
        r == pattern_matches(*p, name@, siblings@),
{
    match p.kind {
        PatternKind::Exact => chars_eq_str(name, p.name),
        PatternKind::Prefix => {
            let pc = chars_of(p.name);
            has_prefix(name, pc.as_slice())
        },
        PatternKind::Guarded(m) => chars_eq_str(name, p.name) && sibling_marked(m, siblings),
    }
}

/// Whether some pattern of `patterns` matches the directory name `name`.
/// `siblings` are the names of the entries of the directory's parent
/// (empty when it has none or it cannot be read); only guarded patterns
/// look at them.
pub fn matches_any_pattern(name: &str, patterns: &[Pattern], siblings: &[String]) -> (r: bool)
    ensures
        r == any_pattern_matches(patterns@, name@, siblings@),
{
    let nc = chars_of(name);
    let n = patterns.len();
    for i in 0..n
        invariant
            n == patterns@.len(),
            nc@ == name@,
            forall|k: int| 0 <= k < i ==> !pattern_matches(patterns@[k], name@, siblings@),
    {
        if pattern_matches_exec(&patterns[i], nc.as_slice(), siblings) {
            return true;
        }
    }
    false
}

/// Some guarded pattern of `ps` has the name `name`, so that matching it
/// needs the entries of the parent directory.
pub open spec fn needs_siblings(ps: Seq<Pattern>, name: Seq<char>) -> bool {
    exists|i: int| 0 <= i < ps.len() && ps[i].kind is Guarded && ps[i].name@ == name
}

/// Whether matching `name` against `patterns` looks at the parent's entries.
pub fn needs_sibling_listing(name: &str, patterns: &[Pattern]) -> (r: bool)
    ensures
        r == needs_siblings(patterns@, name@),
{
    let nc = chars_of(name);
    let n = patterns.len();
    for i in 0..n
        invariant
            n == patterns@.len(),
            nc@ == name@,
            forall|k: int| 0 <= k < i ==> !(patterns@[k].kind is Guarded && patterns@[k].name@ == name@),
    {
        let guarded = match patterns[i].kind {
            PatternKind::Guarded(_) => true,
            _ => false,
        };
        if guarded && chars_eq_str(nc.as_slice(), patterns[i].name) {
            return true;
        }
    }
    false
}

/// `siblings` does not change the outcome of matching `name` when no
/// guarded pattern has that name.
pub proof fn lemma_siblings_irrelevant(
    ps: Seq<Pattern>,
    name: Seq<char>,
    a: Seq<String>,
    b: Seq<String>,
)
    requires
        !needs_siblings(ps, name),
    ensures
        any_pattern_matches(ps, name, a) == any_pattern_matches(ps, name, b),
{
    assert forall|i: int| 0 <= i < ps.len() implies pattern_matches(ps[i], name, a)
        == pattern_matches(ps[i], name, b) by {
        if ps[i].kind is Guarded {
            assert(ps[i].name@ != name);
        }
    }
    if any_pattern_matches(ps, name, a) {
        let i = choose|i: int| 0 <= i < ps.len() && pattern_matches(ps[i], name, a);
        assert(pattern_matches(ps[i], name, b));
    }
    if any_pattern_matches(ps, name, b) {
        let i = choose|i: int| 0 <= i < ps.len() && pattern_matches(ps[i], name, b);
        assert(pattern_matches(ps[i], name, a));
    }
}

} // verus!
