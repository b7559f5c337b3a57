//! The check that refuses to run from the home directory or a system
//! directory.
use vstd::prelude::*;
use crate::domain::os::{HomeEnv, Platform, platform_components, platform_components_exec};
use crate::path::{Comps, components, comps_eq, parent_of, path_components, root_comp};
use crate::text::{
    chars_eq, chars_eq_str, chars_of, has_prefix, is_prefix_of, lowercase, replace_char,
    replace_char_exec, string_of, to_lowercase,
};

verus! {

/// Why the tool refuses to run from a directory.
#[derive(Clone, Copy, Debug, PartialEq, Eq, Structural)]
pub enum SafetyError {
    /// The directory is the user's home directory.
    HomeDirectory,
    /// The directory is a filesystem root or a system directory.
    SystemDirectory,
}

/// The home directory the check compares against: `HOME`, else `USERPROFILE`.
pub open spec fn home_dir_of(env: HomeEnv) -> Option<String> {
    match env.home {
        Some(h) => Some(h),
        None => env.user_profile,
    }
}

/// The home directory the check compares against.
pub fn home_for_check(env: &HomeEnv) -> (r: Option<String>)
    ensures
        r == home_dir_of(*env),
{
    match &env.home {
        Some(h) => Some(h.clone()),
        None => match &env.user_profile {
            Some(u) => Some(u.clone()),
            None => None,
        },
    }
}

/// A Windows drive designator such as `C:`.
pub open spec fn is_drive(c: Seq<char>) -> bool {
    c.len() == 2 && c[1] == ':' && (('a' <= c[0] && c[0] <= 'z') || ('A' <= c[0] && c[0] <= 'Z'))
}

/// `path` has no parent directory: it has no components, ends at the root,
/// or (on Windows) is a bare drive.
pub open spec fn has_no_parent(path: Seq<char>, platform: Platform) -> bool {
    let cs = platform_components(platform, path);
    ||| parent_of(cs) is None
    ||| platform == Platform::Windows && cs.len() == 1 && is_drive(cs[0])
}

/// `path` is the directory `dir` or lies below it, compared by components.
pub open spec fn at_or_under(path: Seq<char>, dir: Seq<char>) -> bool {
    is_prefix_of(components(dir), components(path))
}

/// A Unix system directory: the root, or `/usr`, `/etc`, `/var`, `/bin`
/// and what lies below them.
pub open spec fn unix_system_text(s: Seq<char>) -> bool {
    ||| s == "/"@
    ||| at_or_under(s, "/usr"@)
    ||| at_or_under(s, "/etc"@)
    ||| at_or_under(s, "/var"@)
    ||| at_or_under(s, "/bin"@)
}

/// The lowercased text `l` is the Windows directory `dir` or lies below it.
pub open spec fn win_at_or_under(l: Seq<char>, dir: Seq<char>) -> bool {
    l == dir || is_prefix_of(dir.push('\\'), l)
}

/// A Windows system directory: `C:\Windows`, `C:\Program Files`,
/// `C:\Program Files (x86)` or what lies below them, compared on the
/// lowercased text with `/` read as `\`.
pub open spec fn windows_system_text(s: Seq<char>) -> bool {
    let l = replace_char(lowercase(s), '/', '\\');
    ||| win_at_or_under(l, "c:\\windows"@)
    ||| win_at_or_under(l, "c:\\program files"@)
    ||| win_at_or_under(l, "c:\\program files (x86)"@)
}

/// `path` is a filesystem root or a system directory on `platform`.
pub open spec fn system_dir(path: Seq<char>, platform: Platform) -> bool {
    ||| has_no_parent(path, platform)
    ||| platform == Platform::Windows && windows_system_text(path)
    ||| platform != Platform::Windows && unix_system_text(path)
}

/// `a` and `b` name the same directory: on Windows their lowercased texts
/// agree, elsewhere their components.
pub open spec fn same_dir(a: Seq<char>, b: Seq<char>, platform: Platform) -> bool {
    if platform == Platform::Windows {
        lowercase(a) == lowercase(b)
    } else {
        components(a) == components(b)
    }
}

/// Whether `path` has no parent directory on `platform`.
fn has_no_parent_exec(path: &str, platform: Platform) -> (r: bool)
    ensures
        r == has_no_parent(path@, platform),
{
    let p = chars_of(path);
    let cs = platform_components_exec(platform, p.as_slice());
    let n = cs.len();
    if n == 0 {
        return true;
    }
    if crate::path::is_root_exec(&cs[n - 1]) {
        return true;
    }
    if platform == Platform::Windows && n == 1 {
        let c = &cs[0];
        let drive = c.len() == 2 && c[1] == ':' && ((c[0] >= 'a' && c[0] <= 'z') || (c[0] >= 'A'
            && c[0] <= 'Z'));
        return drive;
    }
    false
}

/// Whether `path` is a filesystem root or a system directory on `platform`.
pub fn is_system_dir(path: &str, platform: Platform) -> (r: bool)
    ensures
        r == system_dir(path@, platform),
{
    if has_no_parent_exec(path, platform) {
        return true;
    }
    if platform == Platform::Windows {
        let l = to_lowercase(path);
        let lc = chars_of(l.as_str());
        let s = replace_char_exec(lc.as_slice(), '/', '\\');
        win_at_or_under_exec(s.as_slice(), "c:\\windows") || win_at_or_under_exec(
            s.as_slice(),
            "c:\\program files",
        ) || win_at_or_under_exec(s.as_slice(), "c:\\program files (x86)")
    } else {
        let s = chars_of(path);
        let pc = path_components(path);
        chars_eq_str(s.as_slice(), "/") || at_or_under_exec(&pc, "/usr") || at_or_under_exec(
            &pc,
            "/etc",
        ) || at_or_under_exec(&pc, "/var") || at_or_under_exec(&pc, "/bin")
    }
}

/// Whether the path with components `pc` is `dir` or lies below it.
fn at_or_under_exec(pc: &Vec<Vec<char>>, dir: &str) -> (r: bool)
    ensures
        r == is_prefix_of(components(dir@), crate::path::comps_view(pc@)),
{
    let dc = path_components(dir);
    crate::path::comps_prefix(&dc, pc)
}

/// Whether the text `l` is the Windows directory `dir` or lies below it.
fn win_at_or_under_exec(l: &[char], dir: &str) -> (r: bool)
    ensures
        r == win_at_or_under(l@, dir@),
{
    let d = chars_of(dir);
    let mut with_sep = d.clone();
    with_sep.push('\\');
    chars_eq(l, d.as_slice()) || has_prefix(l, with_sep.as_slice())
}

/// Whether `a` and `b` name the same directory on `platform`.
pub fn paths_equal_case_insensitive_if_windows(a: &str, b: &str, platform: Platform) -> (r: bool)
    ensures
        r == same_dir(a@, b@, platform),
{
    if platform == Platform::Windows {
        let la = to_lowercase(a);
        let lb = to_lowercase(b);
        let ca = chars_of(la.as_str());
        let cb = chars_of(lb.as_str());
        chars_eq(ca.as_slice(), cb.as_slice())
    } else {
        let ca = path_components(a);
        let cb = path_components(b);
        comps_eq(&ca, &cb)
    }
}

/// Whether `cwd` is the home directory `home` (false when there is none).
pub fn is_home_dir(cwd: &str, home: Option<&str>, platform: Platform) -> (r: bool)
    ensures
        r == (home matches Some(h) && same_dir(cwd@, h@, platform)),
{
    match home {
        Some(h) => paths_equal_case_insensitive_if_windows(cwd, h, platform),
        None => false,
    }
}

/// The outcome of the safety check for the working directory `cwd`, with
/// `home` the home directory, both as resolved on disk.
pub open spec fn check_result(cwd: Seq<char>, home: Option<Seq<char>>, platform: Platform) -> Result<
    (),
    SafetyError,
> {
    if home matches Some(h) && same_dir(cwd, h, platform) {
        Err(SafetyError::HomeDirectory)
    } else if system_dir(cwd, platform) {
        Err(SafetyError::SystemDirectory)
    } else {
        Ok(())
    }
}

/// Refuses to run from the home directory or from a root or system
/// directory.  `cwd` and `home` are the directories as resolved on disk.
pub fn check(cwd: &str, home: Option<&str>, platform: Platform) -> (r: Result<(), SafetyError>)
    ensures
        r == check_result(
            cwd@,
            match home {
                Some(h) => Some(h@),
                None => None,
            },
            platform,
        ),
{
    if is_home_dir(cwd, home, platform) {
        return Err(SafetyError::HomeDirectory);
    }
    if is_system_dir(cwd, platform) {
        return Err(SafetyError::SystemDirectory);
    }
    Ok(())
}

/// `path` with `\` turned into `/`, for messages.
pub fn display_path_for_humans(path: &str) -> (r: String)
    ensures
        r@ == replace_char(path@, '\\', '/'),
{
    let p = chars_of(path);
    let q = replace_char_exec(p.as_slice(), '\\', '/');
    string_of(q.as_slice())
}

} // verus!
