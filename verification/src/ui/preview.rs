//! The text of the preview: byte sizes in human units, labels, and paths
//! shown relative to the scan root.
use vstd::prelude::*;
use crate::path::{comps_prefix, comps_view, components, path_components, render, render_exec};
use crate::text::{chars_of, is_prefix_of, replace_char, replace_char_exec, string_of};
use crate::types::Finding;
use vstd::string::StringSliceAdditionalSpecFns;
use vstd::utf8::{encode_utf8, is_char_boundary};

verus! {

/// The decimal digit `d` as a character.
pub open spec fn digit(d: nat) -> char {
    ((d + 48) as u8) as char
}

/// The decimal text of `n`, without leading zeros.
pub open spec fn decimal(n: nat) -> Seq<char>
    decreases n,
{
    if n < 10 {
        seq![digit(n)]
    } else {
        decimal(n / 10).push(digit(n % 10))
    }
}

/// Appends the decimal text of `n` to `out`.
pub fn push_decimal(out: &mut Vec<char>, n: u64)
    ensures
        final(out)@ == old(out)@ + decimal(n as nat),
    decreases n,
{
    if n >= 10 {
        push_decimal(out, n / 10);
    }
    let d: u8 = (n % 10) as u8;
    let c: char = (48u8 + d) as char;
    out.push(c);
    proof {
        if n >= 10 {
            assert(old(out)@ + decimal(n as nat) =~= (old(out)@ + decimal((n / 10) as nat)).push(c));
        } else {
            assert(old(out)@ + decimal(n as nat) =~= old(out)@.push(c));
        }
    }
}


/// `n / d` rounded to the nearest integer, ties to the even one.
pub open spec fn div_round_even(n: nat, d: nat) -> nat
    recommends
        d > 0,
{
    let q = n / d;
    let r = n % d;
    if 2 * r > d || (2 * r == d && q % 2 == 1) {
        q + 1
    } else {
        q
    }
}

/// The spacing of the `f64` values around `n`: 1 below 2^53, and twice as
/// wide for every further bit.
pub open spec fn ulp(n: nat) -> nat
    decreases n,
{
    if n < 0x20_0000_0000_0000 {
        1
    } else {
        2 * ulp(n / 2)
    }
}

/// The `f64` nearest to `n` (ties to even): what `n as f64` holds.
pub open spec fn nearest_double(n: nat) -> nat {
    div_round_even(n, ulp(n)) * ulp(n)
}

pub open spec fn kib() -> nat {
    1024
}

pub open spec fn mib() -> nat {
    1024 * 1024
}

pub open spec fn gib() -> nat {
    1024 * 1024 * 1024
}

/// `bytes` in human units: gibibytes with one decimal, mebibytes and
/// kibibytes rounded to whole units, or plain bytes below a kibibyte.  The
/// rounding is that of formatting the `f64` quotient: to the nearest, ties
/// to even.
pub open spec fn format_bytes_spec(bytes: nat) -> Seq<char> {
    if bytes >= gib() {
        let t = div_round_even(10 * nearest_double(bytes), gib());
        decimal(t / 10) + seq!['.'] + decimal(t % 10) + " GB"@
    } else if bytes >= mib() {
        decimal(div_round_even(bytes, mib())) + " MB"@
    } else if bytes >= kib() {
        decimal(div_round_even(bytes, kib())) + " KB"@
    } else {
        decimal(bytes) + " B"@
    }
}

/// `n / d` rounded to the nearest integer, ties to the even one.
fn div_round_even_exec(n: u128, d: u128) -> (r: u128)
    requires
        d > 0,
    ensures
        r == div_round_even(n as nat, d as nat),
{
    let q = n / d;
    let rem = n % d;
    assert(q <= n) by (nonlinear_arith)
        requires
            d > 0,
            q == n / d,
    ;
    if rem > d - rem || (rem == d - rem && q % 2 == 1) {
        assert(q < u128::MAX) by (nonlinear_arith)
            requires
                d > 0,
                q == n / d,
                rem == n % d,
                rem > 0,
                n <= u128::MAX,
        ;
        q + 1
    } else {
        q
    }
}

proof fn lemma_ulp_step(n: nat)
    requires
        n >= 0x20_0000_0000_0000,
    ensures
        ulp(n) == 2 * ulp(n / 2),
{
}

/// The `f64` nearest to `n`, as an integer.
fn nearest_double_exec(n: u64) -> (r: u128)
    ensures
        r == nearest_double(n as nat),
        r <= 0x2_0000_0000_0000_0000,
{
    let mut m: u64 = n;
    let mut u: u128 = 1;
    while m >= 0x20_0000_0000_0000
        invariant
            1 <= u <= 0x1000,
            m == n as nat / u as nat,
            ulp(n as nat) == u * ulp(m as nat),
        decreases m,
    {
        proof {
            lemma_ulp_step(m as nat);
            vstd::arithmetic::div_mod::lemma_div_denominator(n as int, u as int, 2);
            assert(u * m <= n) by (nonlinear_arith)
                requires
                    u >= 1,
                    m == n as nat / u as nat,
            ;
            assert(u * 0x20_0000_0000_0000 <= n) by (nonlinear_arith)
                requires
                    u * m <= n,
                    m >= 0x20_0000_0000_0000,
                    u >= 1,
            ;
            assert(u * (2 * ulp((m / 2) as nat)) == (2 * u) * ulp((m / 2) as nat)) by (nonlinear_arith);
        }
        m = m / 2;
        u = 2 * u;
    }
    let q: u128 = m as u128;
    proof {
        vstd::arithmetic::div_mod::lemma_fundamental_div_mod(n as int, u as int);
        assert(ulp(m as nat) == 1);
        assert(q * u <= 0x20_0000_0000_0000 * 0x1000) by (nonlinear_arith)
            requires
                q < 0x20_0000_0000_0000,
                u <= 0x1000,
        ;
        assert(0 <= n as nat % u as nat);
        assert(q * u <= n);
    }
    let rem: u128 = n as u128 - q * u;
    assert(rem == n as nat % u as nat);
    let k = if rem > u - rem || (rem == u - rem && q % 2 == 1) {
        q + 1
    } else {
        q
    };
    assert(ulp(n as nat) == u) by (nonlinear_arith)
        requires
            ulp(n as nat) == u * ulp(m as nat),
            ulp(m as nat) == 1,
    ;
    assert(k == div_round_even(n as nat, ulp(n as nat)));
    assert(k * u <= 0x2_0000_0000_0000_0000) by (nonlinear_arith)
        requires
            k <= 0x20_0000_0000_0000,
            u <= 0x1000,
    ;
    k * u
}

/// `bytes` in human units, as the preview shows it: `"1.5 GB"`, `"12 MB"`,
/// `"3 KB"`, `"512 B"`.
pub fn format_bytes(bytes: u64) -> (r: String)
    ensures
        r@ == format_bytes_spec(bytes as nat),
{
    let mut out: Vec<char> = Vec::new();
    if bytes >= 1024 * 1024 * 1024 {
        let b = nearest_double_exec(bytes);
        let t = div_round_even_exec(10 * b, 1024 * 1024 * 1024);
        assert(t <= 0x2_0000_0000_0000_0000) by (nonlinear_arith)
            requires
                t == div_round_even((10 * b) as nat, 1024 * 1024 * 1024),
                b <= 0x2_0000_0000_0000_0000,
        ;
        push_decimal(&mut out, (t / 10) as u64);
        out.push('.');
        push_decimal(&mut out, (t % 10) as u64);
        out.push(' ');
        out.push('G');
        out.push('B');
    } else if bytes >= 1024 * 1024 {
        let q = div_round_even_exec(bytes as u128, 1024 * 1024);
        push_decimal(&mut out, q as u64);
        out.push(' ');
        out.push('M');
        out.push('B');
    } else if bytes >= 1024 {
        let q = div_round_even_exec(bytes as u128, 1024);
        push_decimal(&mut out, q as u64);
        out.push(' ');
        out.push('K');
        out.push('B');
    } else {
        push_decimal(&mut out, bytes);
        out.push(' ');
        out.push('B');
    }
    proof {
        reveal_strlit(" GB");
        reveal_strlit(" MB");
        reveal_strlit(" KB");
        reveal_strlit(" B");
    }
    assert(out@ =~= format_bytes_spec(bytes as nat));
    string_of(out.as_slice())
}


/// The bytes of all `findings`.
pub open spec fn sum_bytes(findings: Seq<Finding>) -> nat
    decreases findings.len(),
{
    if findings.len() == 0 {
        0
    } else {
        sum_bytes(findings.drop_last()) + findings.last().bytes as nat
    }
}

proof fn lemma_sum_bytes_prefix(findings: Seq<Finding>, i: int)
    requires
        0 <= i <= findings.len(),
    ensures
        sum_bytes(findings.take(i)) <= sum_bytes(findings),
    decreases findings.len() - i,
{
    if i < findings.len() {
        lemma_sum_bytes_prefix(findings, i + 1);
        assert(findings.take(i + 1).drop_last() =~= findings.take(i));
    } else {
        assert(findings.take(i) =~= findings);
    }
}

/// The bytes of all `findings`, or `None` when they exceed `u64::MAX`.
pub fn try_total_bytes(findings: &[Finding]) -> (r: Option<u64>)
    ensures
        match r {
            Some(t) => t == sum_bytes(findings@),
            None => sum_bytes(findings@) > u64::MAX,
        },
{
    let n = findings.len();
    let mut total: u64 = 0;
    for i in 0..n
        invariant
            n == findings@.len(),
            total == sum_bytes(findings@.take(i as int)),
    {
        assert(findings@.take(i + 1).drop_last() =~= findings@.take(i as int));
        match total.checked_add(findings[i].bytes) {
            Some(t) => {
                total = t;
            },
            None => {
                proof {
                    lemma_sum_bytes_prefix(findings@, i + 1);
                }
                return None;
            },
        }
    }
    assert(findings@.take(n as int) =~= findings@);
    Some(total)
}

/// The bytes of all `findings`.
pub fn total_bytes(findings: &[Finding]) -> (r: u64)
    requires
        sum_bytes(findings@) <= u64::MAX,
    ensures
        r == sum_bytes(findings@),
{
    match try_total_bytes(findings) {
        Some(t) => t,
        None => 0,
    }
}

/// The label of a finding over 500 MiB.
pub open spec fn size_label_of(bytes: nat) -> Seq<char> {
    if bytes > 500 * mib() {
        "big win"@
    } else {
        ""@
    }
}

/// The label shown beside a finding: `"big win"` over 500 MiB, else none.
pub fn size_label(bytes: u64) -> (r: &'static str)
    ensures
        r@ == size_label_of(bytes as nat),
{
    if bytes > 500 * 1024 * 1024 {
        "big win"
    } else {
        ""
    }
}

/// A finding under 50 MiB is shown dimmed.
pub fn is_dimmed(bytes: u64) -> (r: bool)
    ensures
        r == (bytes < 50 * mib()),
{
    bytes < 50 * 1024 * 1024
}

/// The noun for `count` findings.
pub fn item_noun(count: usize) -> (r: &'static str)
    ensures
        r@ == (if count == 1 { "item"@ } else { "items"@ }),
{
    if count == 1 {
        "item"
    } else {
        "items"
    }
}

/// The noun for `errors` failed deletions.
pub fn error_noun(errors: u64) -> (r: &'static str)
    ensures
        r@ == (if errors == 1 { "error"@ } else { "errors"@ }),
{
    if errors == 1 {
        "error"
    } else {
        "errors"
    }
}

/// `s` cut to at most `max_len` bytes: unchanged when it fits, otherwise its
/// first `max_len - 1` bytes followed by `…` (or `…` alone when `max_len` is
/// at most 1).  The cut must fall on a character boundary.
pub fn truncate_end(s: &str, max_len: usize) -> (r: String)
    requires
        s.spec_bytes().len() <= usize::MAX,
        s.spec_bytes().len() <= max_len || max_len <= 1 || is_char_boundary(
            s.spec_bytes(),
            max_len - 1,
        ),
    ensures
        s.spec_bytes().len() <= max_len ==> r@ == s@,
        s.spec_bytes().len() > max_len && max_len <= 1 ==> r@ == seq!['…'],
        s.spec_bytes().len() > max_len && max_len > 1 ==> exists|kept: Seq<char>|
            encode_utf8(kept) == s.spec_bytes().subrange(0, max_len - 1) && r@ == kept.push('…'),
{
    if s.len() <= max_len {
        return string_of(chars_of(s).as_slice());
    }
    if max_len <= 1 {
        let mut v: Vec<char> = Vec::new();
        v.push('…');
        return string_of(v.as_slice());
    }
    let keep = max_len - 1;
    let (head, _tail) = s.split_at(keep);
    let mut v = chars_of(head);
    v.push('…');
    assert(encode_utf8(head@) == s.spec_bytes().subrange(0, max_len - 1));
    string_of(v.as_slice())
}

/// `s` without the leading `./` pieces.
pub open spec fn trim_dot_slash(s: Seq<char>) -> Seq<char>
    decreases s.len(),
{
    if s.len() >= 2 && s[0] == '.' && s[1] == '/' {
        trim_dot_slash(s.skip(2))
    } else {
        s
    }
}

/// The text of `path` relative to `root`: the components after those of
/// `root` when `root` begins `path`, else `path` itself.
pub open spec fn relative_text(root: Seq<char>, path: Seq<char>) -> Seq<char> {
    if is_prefix_of(components(root), components(path)) {
        render(components(path).skip(components(root).len() as int))
    } else {
        path
    }
}

/// How the preview shows `path` under `root`: `./` followed by the relative
/// text (or `.` when it is empty), with `\` turned into `/` and leading `./`
/// pieces removed.
pub open spec fn display_relative(root: Seq<char>, path: Seq<char>) -> Seq<char> {
    let rel = relative_text(root, path);
    let shown = if rel.len() == 0 {
        seq!['.']
    } else {
        rel
    };
    seq!['.', '/'] + trim_dot_slash(replace_char(shown, '\\', '/'))
}

fn trim_dot_slash_exec(s: Vec<char>) -> (r: Vec<char>)
    ensures
        r@ == trim_dot_slash(s@),
{
    let n = s.len();
    let mut i: usize = 0;
    assert(s@.skip(0) =~= s@);
    while n - i >= 2 && s[i] == '.' && s[i + 1] == '/'
        invariant
            n == s@.len(),
            i <= n,
            trim_dot_slash(s@) == trim_dot_slash(s@.skip(i as int)),
        decreases n - i,
    {
        assert(s@.skip(i as int).skip(2) =~= s@.skip(i + 2));
        i = i + 2;
    }
    let mut r: Vec<char> = Vec::new();
    let mut j: usize = i;
    while j < n
        invariant
            n == s@.len(),
            i <= j <= n,
            r@ == s@.subrange(i as int, j as int),
        decreases n - j,
    {
        r.push(s[j]);
        assert(s@.subrange(i as int, j + 1) =~= s@.subrange(i as int, j as int).push(s@[j as int]));
        j = j + 1;
    }
    assert(s@.skip(i as int) =~= s@.subrange(i as int, n as int));
    r
}

/// How the preview shows `path` under `root`, as `./relative/path`.
pub fn display_path_relative(root: &str, path: &str) -> (r: String)
    ensures
        r@ == display_relative(root@, path@),
{
    let rc = path_components(root);
    let pc = path_components(path);
    let rel: Vec<char> = if comps_prefix(&rc, &pc) {
        let k = rc.len();
        let n = pc.len();
        let mut rest: Vec<Vec<char>> = Vec::new();
        let mut i: usize = k;
        while i < n
            invariant
                k <= i <= n,
                n == pc@.len(),
                comps_view(rest@) == comps_view(pc@).subrange(k as int, i as int),
            decreases n - i,
        {
            let ghost before = rest@;
            let c = pc[i].clone();
            assert(c@ =~= pc@[i as int]@);
            rest.push(c);
            assert(rest@ == before.push(c));
            proof {
                crate::path::lemma_comps_view_push(before, c);
            }
            assert(comps_view(rest@) =~= comps_view(pc@).subrange(k as int, i + 1));
            i = i + 1;
        }
        assert(comps_view(pc@).subrange(k as int, n as int) =~= comps_view(pc@).skip(k as int));
        render_exec(&rest)
    } else {
        chars_of(path)
    };
    let shown: Vec<char> = if rel.len() == 0 {
        let mut d: Vec<char> = Vec::new();
        d.push('.');
        d
    } else {
        rel
    };
    let replaced = replace_char_exec(shown.as_slice(), '\\', '/');
    let trimmed = trim_dot_slash_exec(replaced);
    let mut out: Vec<char> = Vec::new();
    out.push('.');
    out.push('/');
    let mut t = trimmed;
    out.append(&mut t);
    assert(out@ =~= display_relative(root@, path@));
    string_of(out.as_slice())
}


/// How many findings the preview lists; the rest are summed up.
pub const DISPLAY_LIMIT: usize = 20;

/// The widest path column the preview uses.
pub const MAX_PATH_WIDTH: usize = 48;

/// The length in bytes of the UTF-8 text `s`, as `str::len` gives it.
pub open spec fn byte_len(s: Seq<char>) -> usize {
    encode_utf8(s).len() as usize
}

/// The largest byte length among the display paths of `rows`.
pub open spec fn widest(rows: Seq<PreviewRow>) -> usize
    decreases rows.len(),
{
    if rows.len() == 0 {
        0
    } else {
        let w = byte_len(rows.last().path@);
        let m = widest(rows.drop_last());
        if w > m {
            w
        } else {
            m
        }
    }
}

/// One listed finding: its path as shown, and its size.
#[derive(Clone, Debug)]
pub struct PreviewRow {
    pub path: String,
    pub bytes: u64,
}

/// What the preview lists: the first findings with their display paths,
/// the width of the path column, the size the bars are scaled to, and the
/// number and bytes of the findings not listed.
#[derive(Clone, Debug)]
pub struct PreviewPlan {
    pub rows: Vec<PreviewRow>,
    pub width: usize,
    pub bar_max: u64,
    pub hidden_count: usize,
    pub hidden_bytes: u64,
}

/// `plan` lists the first `limit` of `findings` under `root` as the
/// preview does.
pub open spec fn plans_preview(plan: PreviewPlan, root: Seq<char>, findings: Seq<Finding>, limit: int) -> bool {
    let shown = if findings.len() < limit {
        findings.len() as int
    } else {
        limit
    };
    &&& plan.rows@.len() == shown
    &&& forall|i: int|
        0 <= i < shown ==> (#[trigger] plan.rows@[i]).path@ == display_relative(root, findings[i].path@)
            && plan.rows@[i].bytes == findings[i].bytes
    &&& plan.width == if widest(plan.rows@) < MAX_PATH_WIDTH {
        widest(plan.rows@)
    } else {
        MAX_PATH_WIDTH
    }
    &&& plan.bar_max == if findings.len() > 0 && findings[0].bytes > 1 {
        findings[0].bytes
    } else {
        1
    }
    &&& plan.hidden_count == findings.len() - shown
    &&& plan.hidden_bytes == sum_bytes(findings.skip(shown))
}

proof fn lemma_sum_bytes_split(findings: Seq<Finding>, k: int)
    requires
        0 <= k <= findings.len(),
    ensures
        sum_bytes(findings) == sum_bytes(findings.take(k)) + sum_bytes(findings.skip(k)),
    decreases findings.len(),
{
    if findings.len() > k {
        let f = findings.drop_last();
        lemma_sum_bytes_split(f, k);
        assert(f.take(k) =~= findings.take(k));
        assert(findings.skip(k).drop_last() =~= f.skip(k));
    } else {
        assert(findings.take(k) =~= findings);
        assert(findings.skip(k) =~= Seq::<Finding>::empty());
    }
}

/// The preview of `findings` under `root`, listing at most `limit` of them.
pub fn plan_preview(root: &str, findings: &[Finding], limit: usize) -> (plan: PreviewPlan)
    requires
        sum_bytes(findings@) <= u64::MAX,
    ensures
        plans_preview(plan, root@, findings@, limit as int),
{
    let n = findings.len();
    let shown = if n < limit {
        n
    } else {
        limit
    };
    let mut rows: Vec<PreviewRow> = Vec::new();
    let mut widest_len: usize = 0;
    for i in 0..shown
        invariant
            shown <= n,
            n == findings@.len(),
            rows@.len() == i,
            forall|j: int|
                0 <= j < i ==> (#[trigger] rows@[j]).path@ == display_relative(root@, findings@[j].path@)
                    && rows@[j].bytes == findings@[j].bytes,
            widest_len == widest(rows@),
    {
        let p = display_path_relative(root, findings[i].path.as_str());
        let len = p.as_str().len();
        let ghost before = rows@;
        rows.push(PreviewRow { path: p, bytes: findings[i].bytes });
        assert(rows@.drop_last() =~= before);
        if len > widest_len {
            widest_len = len;
        }
    }
    let width = if widest_len < MAX_PATH_WIDTH {
        widest_len
    } else {
        MAX_PATH_WIDTH
    };
    let bar_max = if n > 0 && findings[0].bytes > 1 {
        findings[0].bytes
    } else {
        1
    };
    let mut hidden: u64 = 0;
    proof {
        lemma_sum_bytes_split(findings@, shown as int);
        assert(findings@.skip(shown as int).take(0) =~= Seq::<Finding>::empty());
    }
    for i in shown..n
        invariant
            shown <= n,
            n == findings@.len(),
            sum_bytes(findings@) <= u64::MAX,
            sum_bytes(findings@) == sum_bytes(findings@.take(shown as int)) + sum_bytes(
                findings@.skip(shown as int),
            ),
            hidden == sum_bytes(findings@.skip(shown as int).take(i - shown)),
    {
        let ghost rest = findings@.skip(shown as int);
        assert(rest.take(i - shown + 1).drop_last() =~= rest.take(i - shown));
        assert(rest[i - shown] == findings@[i as int]);
        proof {
            lemma_sum_bytes_prefix(rest, i - shown + 1);
        }
        hidden = hidden + findings[i].bytes;
    }
    assert(findings@.skip(shown as int).take(n - shown) =~= findings@.skip(shown as int));
    PreviewPlan { rows, width, bar_max, hidden_count: n - shown, hidden_bytes: hidden }
}

} // verus!
