//! The order in which paths sort: component by component, the root before
//! `.` before `..` before ordinary names, and ordinary names by their
//! characters, a name before every longer name it begins.
use vstd::prelude::*;
use crate::path::{Comps, comps_view, components, components_exec, cur_comp, parent_comp, root_comp};

verus! {

/// `k` is the first position at which `a` comes before `b` under `lt`: the
/// elements before `k` agree, and at `k` either `a` has ended while `b` goes
/// on, or both go on and `a`'s element comes first.
pub open spec fn lex_diff_at<A>(a: Seq<A>, b: Seq<A>, k: int, lt: spec_fn(A, A) -> bool) -> bool {
    &&& 0 <= k <= a.len()
    &&& k <= b.len()
    &&& forall|j: int| 0 <= j < k ==> a[j] == b[j]
    &&& ((k < a.len() && k < b.len() && lt(a[k], b[k])) || (k == a.len() && k < b.len()))
}

/// `a` comes before `b` in the lexicographic order built from `lt`.
pub open spec fn lex_lt<A>(a: Seq<A>, b: Seq<A>, lt: spec_fn(A, A) -> bool) -> bool {
    exists|k: int| lex_diff_at(a, b, k, lt)
}

/// `lt` is a strict total order.
pub open spec fn strict_total<A>(lt: spec_fn(A, A) -> bool) -> bool {
    &&& forall|x: A| !#[trigger] lt(x, x)
    &&& forall|x: A, y: A, z: A| #[trigger] lt(x, y) && #[trigger] lt(y, z) ==> lt(x, z)
    &&& forall|x: A, y: A| x != y ==> #[trigger] lt(x, y) || #[trigger] lt(y, x)
}

/// The lexicographic order built from a strict total order is again one.
pub proof fn lemma_lex_strict_total<A>(lt: spec_fn(A, A) -> bool)
    requires
        strict_total(lt),
    ensures
        forall|x: Seq<A>| !#[trigger] lex_lt(x, x, lt),
        forall|x: Seq<A>, y: Seq<A>, z: Seq<A>|
            #[trigger] lex_lt(x, y, lt) && #[trigger] lex_lt(y, z, lt) ==> lex_lt(x, z, lt),
        forall|x: Seq<A>, y: Seq<A>| x != y ==> #[trigger] lex_lt(x, y, lt) || #[trigger] lex_lt(y, x, lt),
{
    assert forall|x: Seq<A>| !#[trigger] lex_lt(x, x, lt) by {
        if lex_lt(x, x, lt) {
            let k = choose|k: int| lex_diff_at(x, x, k, lt);
            assert(!lt(x[k], x[k]));
        }
    }
    assert forall|x: Seq<A>, y: Seq<A>, z: Seq<A>|
        #[trigger] lex_lt(x, y, lt) && #[trigger] lex_lt(y, z, lt) implies lex_lt(x, z, lt) by {
        let k1 = choose|k: int| lex_diff_at(x, y, k, lt);
        let k2 = choose|k: int| lex_diff_at(y, z, k, lt);
        if k1 < k2 {
            assert(lex_diff_at(x, z, k1, lt));
        } else if k2 < k1 {
            assert(lex_diff_at(x, z, k2, lt));
        } else {
            if k1 < x.len() {
                assert(lt(x[k1], z[k1]));
            }
            assert(lex_diff_at(x, z, k1, lt));
        }
    }
    assert forall|x: Seq<A>, y: Seq<A>| x != y implies #[trigger] lex_lt(x, y, lt) || #[trigger] lex_lt(
        y,
        x,
        lt,
    ) by {
        lemma_lex_total(x, y, lt);
    }
}

proof fn lemma_lex_total<A>(x: Seq<A>, y: Seq<A>, lt: spec_fn(A, A) -> bool)
    requires
        strict_total(lt),
        x != y,
    ensures
        lex_lt(x, y, lt) || lex_lt(y, x, lt),
{
    let m = if x.len() < y.len() {
        x.len() as int
    } else {
        y.len() as int
    };
    if forall|j: int| 0 <= j < m ==> x[j] == y[j] {
        if x.len() < y.len() {
            assert(lex_diff_at(x, y, m, lt));
        } else if y.len() < x.len() {
            assert(lex_diff_at(y, x, m, lt));
        } else {
            assert(x =~= y);
        }
    } else {
        let j0 = choose|j: int| 0 <= j < m && x[j] != y[j];
        lemma_first_difference(x, y, j0);
        let k = choose|k: int|
            0 <= k <= j0 && x[k] != y[k] && forall|j: int| 0 <= j < k ==> x[j] == y[j];
        if lt(x[k], y[k]) {
            assert(lex_diff_at(x, y, k, lt));
        } else {
            assert(lex_diff_at(y, x, k, lt));
        }
    }
}

proof fn lemma_first_difference<A>(x: Seq<A>, y: Seq<A>, j0: int)
    requires
        0 <= j0 < x.len(),
        j0 < y.len(),
        x[j0] != y[j0],
    ensures
        exists|k: int| 0 <= k <= j0 && x[k] != y[k] && forall|j: int| 0 <= j < k ==> x[j] == y[j],
    decreases j0,
{
    if exists|j: int| 0 <= j < j0 && x[j] != y[j] {
        let j1 = choose|j: int| 0 <= j < j0 && x[j] != y[j];
        lemma_first_difference(x, y, j1);
    } else {
        assert(forall|j: int| 0 <= j < j0 ==> x[j] == y[j]);
    }
}

/// Characters ordered by their code points.
pub open spec fn char_lt(a: char, b: char) -> bool {
    (a as int) < (b as int)
}

/// Where a component stands among the kinds: root, `.`, `..`, ordinary names.
pub open spec fn comp_rank(c: Seq<char>) -> int {
    if c == root_comp() {
        0
    } else if c == cur_comp() {
        1
    } else if c == parent_comp() {
        2
    } else {
        3
    }
}

/// [`char_lt`] as a relation.
pub open spec fn char_order() -> spec_fn(char, char) -> bool {
    |x: char, y: char| char_lt(x, y)
}

/// Components ordered by kind, ordinary names by their characters.
pub open spec fn comp_lt(a: Seq<char>, b: Seq<char>) -> bool {
    comp_rank(a) < comp_rank(b) || (comp_rank(a) == 3 && comp_rank(b) == 3 && lex_lt(
        a,
        b,
        char_order(),
    ))
}

/// [`comp_lt`] as a relation.
pub open spec fn comp_order() -> spec_fn(Seq<char>, Seq<char>) -> bool {
    |x: Seq<char>, y: Seq<char>| comp_lt(x, y)
}

/// Component lists ordered lexicographically by [`comp_lt`].
pub open spec fn comps_lt(a: Comps, b: Comps) -> bool {
    lex_lt(a, b, comp_order())
}

/// Path `a` sorts before path `b`.
pub open spec fn path_lt(a: Seq<char>, b: Seq<char>) -> bool {
    comps_lt(components(a), components(b))
}

proof fn lemma_char_lt_total()
    ensures
        strict_total(char_order()),
{
}

/// Components are strictly and totally ordered by [`comp_lt`].
pub proof fn lemma_comp_lt_total()
    ensures
        strict_total(comp_order()),
{
    let clt = char_order();
    lemma_char_lt_total();
    lemma_lex_strict_total(clt);
    assert forall|x: Seq<char>, y: Seq<char>, z: Seq<char>|
        #[trigger] comp_lt(x, y) && #[trigger] comp_lt(y, z) implies comp_lt(x, z) by {
        if comp_rank(x) == 3 && comp_rank(y) == 3 && comp_rank(z) == 3 {
            assert(lex_lt(x, y, clt) && lex_lt(y, z, clt));
        }
    }
    assert forall|x: Seq<char>, y: Seq<char>| x != y implies #[trigger] comp_lt(x, y)
        || #[trigger] comp_lt(y, x) by {
        if comp_rank(x) == comp_rank(y) && comp_rank(x) == 3 {
            assert(lex_lt(x, y, clt) || lex_lt(y, x, clt));
        }
    }
}

/// Component lists, and so paths, are strictly and totally ordered.
pub proof fn lemma_comps_lt_total()
    ensures
        forall|x: Comps| !#[trigger] comps_lt(x, x),
        forall|x: Comps, y: Comps, z: Comps|
            #[trigger] comps_lt(x, y) && #[trigger] comps_lt(y, z) ==> comps_lt(x, z),
        forall|x: Comps, y: Comps| x != y ==> #[trigger] comps_lt(x, y) || #[trigger] comps_lt(y, x),
{
    lemma_comp_lt_total();
    lemma_lex_strict_total(comp_order());
}

/// Whether `a` sorts before `b` by code points, a prefix first.
pub fn chars_lt_exec(a: &[char], b: &[char]) -> (r: bool)
    ensures
        r == lex_lt(a@, b@, char_order()),
{
    let m = if a.len() < b.len() {
        a.len()
    } else {
        b.len()
    };
    for j in 0..m
        invariant
            m <= a@.len(),
            m <= b@.len(),
            m == a@.len() || m == b@.len(),
            forall|i: int| 0 <= i < j ==> a@[i] == b@[i],
    {
        if a[j] != b[j] {
            let r = a[j] < b[j];
            if r {
                assert(lex_diff_at(a@, b@, j as int, char_order()));
            } else {
                assert forall|k: int| !lex_diff_at(a@, b@, k, char_order()) by {
                    if lex_diff_at(a@, b@, k, char_order()) {
                        if k > j {
                            assert(a@[j as int] == b@[j as int]);
                        }
                    }
                }
            }
            return r;
        }
    }
    let r = a.len() < b.len();
    if r {
        assert(lex_diff_at(a@, b@, m as int, char_order()));
    } else {
        assert forall|k: int| !lex_diff_at(a@, b@, k, char_order()) by {
            if lex_diff_at(a@, b@, k, char_order()) {
                assert(k <= m);
                if k < m {
                    assert(a@[k] == b@[k]);
                }
            }
        }
    }
    r
}

/// The rank of a component: root 0, `.` 1, `..` 2, ordinary names 3.
pub fn comp_rank_exec(c: &Vec<char>) -> (r: u8)
    ensures
        r == comp_rank(c@),
{
    if c.len() == 1 && c[0] == '/' {
        assert(c@ =~= root_comp());
        0
    } else if c.len() == 1 && c[0] == '.' {
        assert(c@ =~= cur_comp());
        assert(c@ != root_comp());
        1
    } else if c.len() == 2 && c[0] == '.' && c[1] == '.' {
        assert(c@ =~= parent_comp());
        assert(c@ != root_comp());
        assert(c@ != cur_comp());
        2
    } else {
        assert(c@ != root_comp());
        assert(c@ != cur_comp());
        assert(c@ != parent_comp());
        3
    }
}

/// Whether component `x` sorts before component `y`.
pub fn comp_lt_exec(x: &Vec<char>, y: &Vec<char>) -> (r: bool)
    ensures
        r == comp_lt(x@, y@),
{
    let rx = comp_rank_exec(x);
    let ry = comp_rank_exec(y);
    if rx != ry {
        rx < ry
    } else if rx == 3 {
        chars_lt_exec(x.as_slice(), y.as_slice())
    } else {
        false
    }
}

/// Whether the component list `a` sorts before `b`.
pub fn comps_lt_exec(a: &Vec<Vec<char>>, b: &Vec<Vec<char>>) -> (r: bool)
    ensures
        r == comps_lt(comps_view(a@), comps_view(b@)),
{
    let ghost av = comps_view(a@);
    let ghost bv = comps_view(b@);
    let m = if a.len() < b.len() {
        a.len()
    } else {
        b.len()
    };
    for j in 0..m
        invariant
            av == comps_view(a@),
            bv == comps_view(b@),
            m <= a@.len(),
            m <= b@.len(),
            m == a@.len() || m == b@.len(),
            forall|i: int| 0 <= i < j ==> av[i] == bv[i],
    {
        if !crate::text::chars_eq(a[j].as_slice(), b[j].as_slice()) {
            let r = comp_lt_exec(&a[j], &b[j]);
            assert(av[j as int] == a@[j as int]@);
            assert(bv[j as int] == b@[j as int]@);
            if r {
                assert(lex_diff_at(av, bv, j as int, comp_order()));
            } else {
                assert forall|k: int| !lex_diff_at(av, bv, k, comp_order()) by {
                    if lex_diff_at(av, bv, k, comp_order()) {
                        if k > j {
                            assert(av[j as int] == bv[j as int]);
                        }
                    }
                }
            }
            return r;
        }
    }
    let r = a.len() < b.len();
    if r {
        assert(lex_diff_at(av, bv, m as int, comp_order()));
    } else {
        assert forall|k: int| !lex_diff_at(av, bv, k, comp_order()) by {
            if lex_diff_at(av, bv, k, comp_order()) {
                assert(k <= m);
                if k < m {
                    assert(av[k] == bv[k]);
                    lemma_comp_lt_total();
                    assert(!comp_lt(av[k], av[k]));
                }
            }
        }
    }
    r
}

/// Whether path `a` sorts before path `b`.
pub fn path_lt_exec(a: &str, b: &str) -> (r: bool)
    ensures
        r == path_lt(a@, b@),
{
    let ca = crate::path::path_components(a);
    let cb = crate::path::path_components(b);
    comps_lt_exec(&ca, &cb)
}

} // verus!
