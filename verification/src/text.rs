//! Character-level helpers shared by the path model and the rule checks.
//!
//! Text is handled as sequences of `char`: a `&str` is turned into a
//! `Vec<char>` once, examined with the verified helpers below, and turned
//! back into a `String` when a result is handed out.
use vstd::prelude::*;

verus! {

broadcast use vstd::string::group_string_axioms;

/// `p` is a prefix of `s`.
pub open spec fn is_prefix_of<T>(p: Seq<T>, s: Seq<T>) -> bool {
    p.len() <= s.len() && s.subrange(0, p.len() as int) == p
}

/// `p` is a suffix of `s`.
pub open spec fn is_suffix_of<T>(p: Seq<T>, s: Seq<T>) -> bool {
    p.len() <= s.len() && s.subrange(s.len() - p.len(), s.len() as int) == p
}

/// `n` occurs as a contiguous block starting at index `i` of `s`.
pub open spec fn occurs_at<T>(n: Seq<T>, s: Seq<T>, i: int) -> bool {
    0 <= i && i + n.len() <= s.len() && s.subrange(i, i + n.len()) == n
}

/// `n` occurs somewhere in `s` as a contiguous block.
pub open spec fn occurs_in<T>(n: Seq<T>, s: Seq<T>) -> bool {
    exists|i: int| occurs_at(n, s, i)
}

/// `s` with every `from` replaced by `to`.
pub open spec fn replace_char(s: Seq<char>, from: char, to: char) -> Seq<char> {
    s.map_values(|c: char| if c == from { to } else { c })
}

/// The characters of `s`.
pub fn chars_of(s: &str) -> (v: Vec<char>)
    ensures
        v@ == s@,
{
    let mut v: Vec<char> = Vec::new();
    for c in iter: s.chars()
        invariant
            iter.seq() == s@,
            v@ == iter.seq().take(iter.index()),
    {
        v.push(c);
    }
    v
}

/// Appends one character to a string (std's `String::push`).
#[verifier::external_body]
fn push_char(s: &mut String, c: char)
    ensures
        final(s)@ == old(s)@.push(c),
{
    s.push(c);
}

/// The string made of the characters `cs`.
pub fn string_of(cs: &[char]) -> (s: String)
    ensures
        s@ == cs@,
{
    let mut s = String::new();
    let n = cs.len();
    for i in 0..n
        invariant
            n == cs@.len(),
            s@ == cs@.take(i as int),
    {
        push_char(&mut s, cs[i]);
        assert(cs@.take(i + 1) == cs@.take(i as int).push(cs@[i as int]));
    }
    assert(cs@.take(n as int) == cs@);
    s
}

/// Character-wise equality.
pub fn chars_eq(a: &[char], b: &[char]) -> (r: bool)
    ensures
        r == (a@ == b@),
{
    if a.len() != b.len() {
        return false;
    }
    let n = a.len();
    for i in 0..n
        invariant
            n == a@.len(),
            n == b@.len(),
            forall|k: int| 0 <= k < i ==> a@[k] == b@[k],
    {
        if a[i] != b[i] {
            return false;
        }
    }
    assert(a@ =~= b@);
    true
}

/// `a` equals the string `b`.
pub fn chars_eq_str(a: &[char], b: &str) -> (r: bool)
    ensures
        r == (a@ == b@),
{
    let bv = chars_of(b);
    chars_eq(a, bv.as_slice())
}

/// `s` starts with `p`.
pub fn has_prefix(s: &[char], p: &[char]) -> (r: bool)
    ensures
        r == is_prefix_of(p@, s@),
{
    if p.len() > s.len() {
        return false;
    }
    let n = p.len();
    for i in 0..n
        invariant
            n == p@.len(),
            n <= s@.len(),
            forall|k: int| 0 <= k < i ==> s@[k] == p@[k],
    {
        if s[i] != p[i] {
            assert(s@.subrange(0, n as int)[i as int] != p@[i as int]);
            return false;
        }
    }
    assert(s@.subrange(0, n as int) =~= p@);
    true
}

/// `s` ends with `p`.
pub fn has_suffix(s: &[char], p: &[char]) -> (r: bool)
    ensures
        r == is_suffix_of(p@, s@),
{
    if p.len() > s.len() {
        return false;
    }
    let n = p.len();
    let sl = s.len();
    let off = sl - n;
    for i in 0..n
        invariant
            n == p@.len(),
            sl == s@.len(),
            off + n == sl,
            forall|k: int| 0 <= k < i ==> s@[off + k] == p@[k],
    {
        if s[off + i] != p[i] {
            assert(s@.subrange(off as int, s@.len() as int)[i as int] != p@[i as int]);
            return false;
        }
    }
    assert(s@.subrange(off as int, s@.len() as int) =~= p@);
    true
}

/// `n` occurs in `s` at index `i`.
fn occurs_at_exec(s: &[char], n: &[char], i: usize) -> (r: bool)
    requires
        i + n@.len() <= s@.len(),
    ensures
        r == occurs_at(n@, s@, i as int),
{
    let m = n.len();
    let sl = s.len();
    for k in 0..m
        invariant
            m == n@.len(),
            sl == s@.len(),
            i + m <= sl,
            forall|j: int| 0 <= j < k ==> s@[i + j] == n@[j],
    {
        if s[i + k] != n[k] {
            assert(s@.subrange(i as int, i + m)[k as int] != n@[k as int]);
            return false;
        }
    }
    assert(s@.subrange(i as int, i + m) =~= n@);
    true
}

/// `n` occurs somewhere in `s`.
pub fn contains_chars(s: &[char], n: &[char]) -> (r: bool)
    ensures
        r == occurs_in(n@, s@),
{
    if n.len() > s.len() {
        return false;
    }
    if n.len() == 0 {
        assert(s@.subrange(0, 0) =~= n@);
        assert(occurs_at(n@, s@, 0));
        return true;
    }
    let sl = s.len();
    let last = sl - n.len();
    let mut i: usize = 0;
    while i <= last
        invariant
            sl == s@.len(),
            n@.len() > 0,
            last + n@.len() == sl,
            i <= last + 1,
            forall|j: int| 0 <= j < i ==> !occurs_at(n@, s@, j),
        decreases last + 1 - i,
    {
        if occurs_at_exec(s, n, i) {
            return true;
        }
        i = i + 1;
    }
    assert forall|j: int| !occurs_at(n@, s@, j) by {
        if 0 <= j && j + n@.len() <= s@.len() {
            assert(j < i);
        }
    }
    false
}

/// `n` (given as a string) occurs somewhere in `s`.
pub fn contains_str(s: &[char], n: &str) -> (r: bool)
    ensures
        r == occurs_in(n@, s@),
{
    let nv = chars_of(n);
    contains_chars(s, nv.as_slice())
}

/// `s` with every `from` replaced by `to`.
pub fn replace_char_exec(s: &[char], from: char, to: char) -> (r: Vec<char>)
    ensures
        r@ == replace_char(s@, from, to),
{
    let mut r: Vec<char> = Vec::new();
    let n = s.len();
    for i in 0..n
        invariant
            n == s@.len(),
            r@ == replace_char(s@.take(i as int), from, to),
    {
        let c = if s[i] == from { to } else { s[i] };
        r.push(c);
        assert(replace_char(s@.take(i + 1), from, to) =~= replace_char(s@.take(i as int), from, to).push(c));
    }
    assert(s@.take(n as int) =~= s@);
    r
}

} // verus!

verus! {

/// The lowercase form of `s` under Unicode's full case mapping, as std's
/// `str::to_lowercase` computes it.
pub uninterp spec fn lowercase(s: Seq<char>) -> Seq<char>;

/// Lowercases a string with std's `str::to_lowercase`.  The result is named
/// [`lowercase`]; nothing more is claimed of it.
#[verifier::external_body]
pub(crate) fn to_lowercase(s: &str) -> (r: String)
    ensures
        r@ == lowercase(s@),
{
    s.to_lowercase()
}

/// `c` with an ASCII uppercase letter turned into lowercase, as a code point.
pub open spec fn ascii_fold(c: char) -> int {
    if 'A' <= c && c <= 'Z' {
        c as int + 32
    } else {
        c as int
    }
}

/// `a` and `b` are equal when ASCII letters are compared without case (std's
/// `eq_ignore_ascii_case`).
pub open spec fn eq_ignore_ascii_case(a: Seq<char>, b: Seq<char>) -> bool {
    a.len() == b.len() && forall|i: int| 0 <= i < a.len() ==> ascii_fold(a[i]) == ascii_fold(b[i])
}

fn ascii_fold_exec(c: char) -> (r: u32)
    ensures
        r == ascii_fold(c),
{
    let x = c as u32;
    if c >= 'A' && c <= 'Z' {
        x + 32
    } else {
        x
    }
}

/// Whether `a` equals `b` with ASCII letters compared without case.
pub fn eq_ignore_ascii_case_exec(a: &[char], b: &str) -> (r: bool)
    ensures
        r == eq_ignore_ascii_case(a@, b@),
{
    let bc = chars_of(b);
    if a.len() != bc.len() {
        return false;
    }
    let n = a.len();
    for i in 0..n
        invariant
            n == a@.len(),
            n == bc@.len(),
            bc@ == b@,
            forall|k: int| 0 <= k < i ==> ascii_fold(a@[k]) == ascii_fold(b@[k]),
    {
        if ascii_fold_exec(a[i]) != ascii_fold_exec(bc[i]) {
            return false;
        }
    }
    true
}

/// `c` has Unicode's White_Space property (std's `char::is_whitespace`).
pub open spec fn is_white_space(c: char) -> bool {
    ||| ('\u{9}' <= c && c <= '\u{d}')
    ||| c == ' '
    ||| c == '\u{85}'
    ||| c == '\u{a0}'
    ||| c == '\u{1680}'
    ||| ('\u{2000}' <= c && c <= '\u{200a}')
    ||| c == '\u{2028}'
    ||| c == '\u{2029}'
    ||| c == '\u{202f}'
    ||| c == '\u{205f}'
    ||| c == '\u{3000}'
}

/// Whether `c` is white space.
pub fn is_white_space_exec(c: char) -> (r: bool)
    ensures
        r == is_white_space(c),
{
    ('\u{9}' <= c && c <= '\u{d}') || c == ' ' || c == '\u{85}' || c == '\u{a0}' || c == '\u{1680}'
        || ('\u{2000}' <= c && c <= '\u{200a}') || c == '\u{2028}' || c == '\u{2029}' || c
        == '\u{202f}' || c == '\u{205f}' || c == '\u{3000}'
}

/// `s` without its leading white space.
pub open spec fn trim_start(s: Seq<char>) -> Seq<char>
    decreases s.len(),
{
    if s.len() > 0 && is_white_space(s[0]) {
        trim_start(s.drop_first())
    } else {
        s
    }
}

/// `s` without its trailing white space.
pub open spec fn trim_end(s: Seq<char>) -> Seq<char>
    decreases s.len(),
{
    if s.len() > 0 && is_white_space(s.last()) {
        trim_end(s.drop_last())
    } else {
        s
    }
}

/// `s` without leading and trailing white space (std's `str::trim`).
pub open spec fn trimmed(s: Seq<char>) -> Seq<char> {
    trim_end(trim_start(s))
}

/// The characters of `s` without leading and trailing white space.
pub fn trim_chars(s: &str) -> (r: Vec<char>)
    ensures
        r@ == trimmed(s@),
{
    let c = chars_of(s);
    let n = c.len();
    let mut a: usize = 0;
    assert(s@.subrange(0, n as int) =~= s@);
    while a < n && is_white_space_exec(c[a])
        invariant
            n == c@.len(),
            c@ == s@,
            a <= n,
            trim_start(s@) == trim_start(s@.subrange(a as int, n as int)),
        decreases n - a,
    {
        assert(s@.subrange(a as int, n as int).drop_first() =~= s@.subrange(a + 1, n as int));
        a = a + 1;
    }
    let ghost st = s@.subrange(a as int, n as int);
    assert(trim_start(st) == st);
    let mut b: usize = n;
    while b > a && is_white_space_exec(c[b - 1])
        invariant
            n == c@.len(),
            c@ == s@,
            a <= b <= n,
            st == s@.subrange(a as int, n as int),
            trim_end(st) == trim_end(s@.subrange(a as int, b as int)),
        decreases b,
    {
        assert(s@.subrange(a as int, b as int).drop_last() =~= s@.subrange(a as int, b - 1));
        b = b - 1;
    }
    let ghost res = s@.subrange(a as int, b as int);
    assert(trim_end(res) == res);
    let mut r: Vec<char> = Vec::new();
    let mut i = a;
    while i < b
        invariant
            n == c@.len(),
            c@ == s@,
            a <= i <= b <= n,
            r@ == s@.subrange(a as int, i as int),
        decreases b - i,
    {
        r.push(c[i]);
        assert(s@.subrange(a as int, i + 1) =~= s@.subrange(a as int, i as int).push(c@[i as int]));
        i = i + 1;
    }
    r
}

} // verus!
