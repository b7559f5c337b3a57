//! A model of filesystem paths as sequences of components.
//!
//! A path is split at `/`.  A leading `/` becomes the root component `"/"`,
//! a leading `.` (the whole path, or followed by `/`) becomes the current
//! directory component `"."`; empty pieces and every other `.` piece are
//! dropped.  Every other piece, `..` included, is a component of its own.
//! Equality, prefix tests, parents and file names of paths are all stated
//! over these components.  Native Windows paths, where `\` separates
//! components too, are first put in this form by
//! `domain::os::model_path`.
use vstd::prelude::*;
use crate::text::{chars_eq, chars_of, is_prefix_of};

verus! {

/// Components of a path.
pub type Comps = Seq<Seq<char>>;

pub open spec fn root_comp() -> Seq<char> {
    seq!['/']
}

pub open spec fn cur_comp() -> Seq<char> {
    seq!['.']
}

pub open spec fn parent_comp() -> Seq<char> {
    seq!['.', '.']
}

/// An ordinary named component (not the root, `.` or `..`).
pub open spec fn is_normal(c: Seq<char>) -> bool {
    c != root_comp() && c != cur_comp() && c != parent_comp()
}

/// Adds the piece `cur` to the components gathered so far, unless it is empty or `.`.
pub open spec fn flush(acc: Comps, cur: Seq<char>) -> Comps {
    if cur.len() == 0 || cur == cur_comp() {
        acc
    } else {
        acc.push(cur)
    }
}

/// The pieces of `s` from index `i` on, given the piece `cur` being read and
/// the pieces `acc` already complete.
pub open spec fn split_from(s: Seq<char>, i: int, cur: Seq<char>, acc: Comps) -> Comps
    decreases s.len() - i,
{
    if i >= s.len() {
        flush(acc, cur)
    } else if s[i] == '/' {
        split_from(s, i + 1, seq![], flush(acc, cur))
    } else {
        split_from(s, i + 1, cur.push(s[i]), acc)
    }
}

/// The root or current-directory component that a path starts with, if any.
pub open spec fn leading(s: Seq<char>) -> Comps {
    if s.len() > 0 && s[0] == '/' {
        seq![root_comp()]
    } else if s.len() > 0 && s[0] == '.' && (s.len() == 1 || s[1] == '/') {
        seq![cur_comp()]
    } else {
        seq![]
    }
}

/// The components of the path `s`.
pub open spec fn components(s: Seq<char>) -> Comps {
    leading(s) + split_from(s, 0, seq![], seq![])
}

/// The last component, when it is an ordinary name.
pub open spec fn file_name_of(cs: Comps) -> Option<Seq<char>> {
    if cs.len() > 0 && is_normal(cs.last()) {
        Some(cs.last())
    } else {
        None
    }
}

/// The components of the parent directory: `None` for an empty path or one
/// that ends at the root.
pub open spec fn parent_of(cs: Comps) -> Option<Comps> {
    if cs.len() == 0 || cs.last() == root_comp() {
        None
    } else {
        Some(cs.drop_last())
    }
}

/// `cs[i..]` joined with `/`.
pub open spec fn join_from(cs: Comps, i: int) -> Seq<char>
    decreases cs.len() - i,
{
    if i >= cs.len() {
        seq![]
    } else if i == cs.len() - 1 {
        cs[i]
    } else {
        cs[i] + seq!['/'] + join_from(cs, i + 1)
    }
}

/// The text of a path with components `cs`, separated by `/`.
pub open spec fn render(cs: Comps) -> Seq<char> {
    if cs.len() > 0 && cs[0] == root_comp() {
        seq!['/'] + join_from(cs, 1)
    } else {
        join_from(cs, 0)
    }
}

/// Paths with the same components are equal.
pub open spec fn same_path(a: Seq<char>, b: Seq<char>) -> bool {
    components(a) == components(b)
}

/// `p` lies at or under `base`: the components of `base` begin those of `p`.
pub open spec fn path_starts_with(p: Seq<char>, base: Seq<char>) -> bool {
    is_prefix_of(components(base), components(p))
}

/// The deep view of a list of component vectors.
pub open spec fn comps_view(v: Seq<Vec<char>>) -> Comps {
    v.map_values(|c: Vec<char>| c@)
}

pub proof fn lemma_comps_view_push(v: Seq<Vec<char>>, c: Vec<char>)
    ensures
        comps_view(v.push(c)) == comps_view(v).push(c@),
{
    assert(comps_view(v.push(c)) =~= comps_view(v).push(c@));
}

fn flush_exec(acc: &mut Vec<Vec<char>>, cur: Vec<char>)
    ensures
        comps_view(final(acc)@) == flush(comps_view(old(acc)@), cur@),
{
    let is_dot = cur.len() == 1 && cur[0] == '.';
    if cur.len() == 0 {
    } else if is_dot {
        assert(cur@ =~= cur_comp());
    } else {
        assert(cur@ != cur_comp());
        proof {
            lemma_comps_view_push(acc@, cur);
        }
        acc.push(cur);
    }
}

/// The components of the path `s`.
pub fn components_exec(s: &[char]) -> (r: Vec<Vec<char>>)
    ensures
        comps_view(r@) == components(s@),
{
    let mut acc: Vec<Vec<char>> = Vec::new();
    let mut cur: Vec<char> = Vec::new();
    let n = s.len();
    assert(comps_view(acc@) =~= Seq::<Seq<char>>::empty());
    for i in 0..n
        invariant
            n == s@.len(),
            split_from(s@, i as int, cur@, comps_view(acc@)) == split_from(s@, 0, seq![], seq![]),
    {
        if s[i] == '/' {
            let old_cur = cur;
            cur = Vec::new();
            flush_exec(&mut acc, old_cur);
            assert(cur@ =~= Seq::<char>::empty());
        } else {
            cur.push(s[i]);
        }
    }
    flush_exec(&mut acc, cur);
    let mut r: Vec<Vec<char>> = Vec::new();
    if n > 0 && s[0] == '/' {
        let c = vec!['/'];
        assert(c@ =~= root_comp());
        r.push(c);
        assert(comps_view(r@) =~= leading(s@));
    } else if n > 0 && s[0] == '.' && (n == 1 || s[1] == '/') {
        let c = vec!['.'];
        assert(c@ =~= cur_comp());
        r.push(c);
        assert(comps_view(r@) =~= leading(s@));
    } else {
        assert(comps_view(r@) =~= leading(s@));
    }
    let ghost rv = r@;
    let ghost av = acc@;
    r.append(&mut acc);
    assert(r@ == rv + av);
    assert(comps_view(r@) =~= comps_view(rv) + comps_view(av));
    r
}

/// The components of the path given as a string.
pub fn path_components(p: &str) -> (r: Vec<Vec<char>>)
    ensures
        comps_view(r@) == components(p@),
{
    let v = chars_of(p);
    components_exec(v.as_slice())
}

/// `c` is the root component.
pub fn is_root_exec(c: &Vec<char>) -> (r: bool)
    ensures
        r == (c@ == root_comp()),
{
    let r = c.len() == 1 && c[0] == '/';
    if r {
        assert(c@ =~= root_comp());
    }
    r
}

/// `c` is an ordinary named component.
pub fn is_normal_exec(c: &Vec<char>) -> (r: bool)
    ensures
        r == is_normal(c@),
{
    let is_root = c.len() == 1 && c[0] == '/';
    let is_cur = c.len() == 1 && c[0] == '.';
    let is_par = c.len() == 2 && c[0] == '.' && c[1] == '.';
    if is_root {
        assert(c@ =~= root_comp());
    }
    if is_cur {
        assert(c@ =~= cur_comp());
    }
    if is_par {
        assert(c@ =~= parent_comp());
    }
    !is_root && !is_cur && !is_par
}

/// Component-wise equality of two component lists.
pub fn comps_eq(a: &Vec<Vec<char>>, b: &Vec<Vec<char>>) -> (r: bool)
    ensures
        r == (comps_view(a@) == comps_view(b@)),
{
    if a.len() != b.len() {
        assert(comps_view(a@).len() != comps_view(b@).len());
        return false;
    }
    let n = a.len();
    for i in 0..n
        invariant
            n == a@.len(),
            n == b@.len(),
            forall|k: int| 0 <= k < i ==> a@[k]@ == b@[k]@,
    {
        if !chars_eq(a[i].as_slice(), b[i].as_slice()) {
            assert(comps_view(a@)[i as int] != comps_view(b@)[i as int]);
            return false;
        }
    }
    assert(comps_view(a@) =~= comps_view(b@));
    true
}

/// The components `base` begin the components `p`.
pub fn comps_prefix(base: &Vec<Vec<char>>, p: &Vec<Vec<char>>) -> (r: bool)
    ensures
        r == is_prefix_of(comps_view(base@), comps_view(p@)),
{
    if base.len() > p.len() {
        return false;
    }
    let n = base.len();
    for i in 0..n
        invariant
            n == base@.len(),
            n <= p@.len(),
            forall|k: int| 0 <= k < i ==> p@[k]@ == base@[k]@,
    {
        if !chars_eq(base[i].as_slice(), p[i].as_slice()) {
            assert(comps_view(p@).subrange(0, n as int)[i as int] != comps_view(base@)[i as int]);
            return false;
        }
    }
    assert(comps_view(p@).subrange(0, n as int) =~= comps_view(base@));
    true
}

/// The text of the path with components `cs`.
pub fn render_exec(cs: &Vec<Vec<char>>) -> (r: Vec<char>)
    ensures
        r@ == render(comps_view(cs@)),
{
    let ghost v = comps_view(cs@);
    let n = cs.len();
    let mut start: usize = 0;
    let mut r: Vec<char> = Vec::new();
    if n > 0 && is_root_exec(&cs[0]) {
        r.push('/');
        start = 1;
    }
    // Build the joined text from the back, then prepend the root if any.
    let mut tail: Vec<char> = Vec::new();
    let mut i: usize = n;
    while i > start
        invariant
            n == cs@.len(),
            v == comps_view(cs@),
            start <= i <= n,
            tail@ == join_from(v, i as int),
        decreases i,
    {
        i = i - 1;
        let mut piece: Vec<char> = cs[i].clone();
        assert(piece@ == v[i as int]);
        if i + 1 < n {
            piece.push('/');
            let ghost pv = piece@;
            let mut t2 = tail;
            piece.append(&mut t2);
            assert(piece@ == pv + join_from(v, i + 1));
        }
        assert(piece@ =~= join_from(v, i as int));
        tail = piece;
    }
    let ghost rv = r@;
    r.append(&mut tail);
    assert(r@ =~= rv + join_from(v, start as int));
    r
}

} // verus!
