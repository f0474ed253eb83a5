//! File system paths as strings, read the way `std::path` reads them on Unix: a path is split
//! at `/` into segments, and its components are a root (for a path starting with `/`), `.` only
//! as the very first segment, `..`, and the other non-empty segments.

use vstd::prelude::*;

use crate::text::{chars_of, push_char};

verus! {

/// The segments of `p` between its `/` separators, empty ones included.
pub open spec fn split_segs(p: Seq<char>) -> Seq<Seq<char>>
    decreases p.len(),
{
    if p.len() == 0 {
        seq![seq![]]
    } else if p.last() == '/' {
        split_segs(p.drop_last()).push(seq![])
    } else {
        let s = split_segs(p.drop_last());
        s.update(s.len() - 1, s.last().push(p.last()))
    }
}

/// Segments joined with `/` between them.
pub open spec fn join_segs(segs: Seq<Seq<char>>) -> Seq<char>
    decreases segs.len(),
{
    if segs.len() == 0 {
        seq![]
    } else if segs.len() == 1 {
        segs[0]
    } else {
        join_segs(segs.drop_last()) + seq!['/'] + segs.last()
    }
}

/// A path has at least one segment.
pub proof fn lemma_split_nonempty(p: Seq<char>)
    ensures
        split_segs(p).len() >= 1,
    decreases p.len(),
{
    if p.len() > 0 {
        lemma_split_nonempty(p.drop_last());
    }
}

/// Joining the segments of a path gives the path back.
pub proof fn lemma_join_split(p: Seq<char>)
    ensures
        join_segs(split_segs(p)) == p,
    decreases p.len(),
{
    if p.len() > 0 {
        let q = p.drop_last();
        lemma_join_split(q);
        lemma_split_nonempty(q);
        let s = split_segs(q);
        if p.last() == '/' {
            assert(split_segs(p).drop_last() =~= s);
            assert(join_segs(split_segs(p)) =~= p);
        } else {
            let t = s.update(s.len() - 1, s.last().push(p.last()));
            if s.len() == 1 {
                assert(join_segs(t) =~= p);
            } else {
                assert(t.drop_last() =~= s.drop_last());
                assert(join_segs(s) == join_segs(s.drop_last()) + seq!['/'] + s.last());
                assert(join_segs(t) == join_segs(s.drop_last()) + seq!['/'] + t.last());
                assert(p =~= q.push(p.last()));
                assert(t.last() == s.last().push(p.last()));
                assert(join_segs(t) =~= p);
            }
        }
    }
}

/// The segments of `p`, as vectors of characters.
pub fn split_path(p: &Vec<char>) -> (res: Vec<Vec<char>>)
    ensures
        segs_view(res@) == split_segs(p@),
{
    let mut res: Vec<Vec<char>> = Vec::new();
    let mut cur: Vec<char> = Vec::new();
    let mut i: usize = 0;
    assert(p@.take(0) =~= seq![]);
    while i < p.len()
        invariant
            i <= p.len(),
            segs_view(res@).push(cur@) == split_segs(p@.take(i as int)),
        decreases p.len() - i,
    {
        assert(p@.take(i + 1).drop_last() =~= p@.take(i as int));
        let ghost before = segs_view(res@);
        if p[i] == '/' {
            let done = cur;
            res.push(done);
            cur = Vec::new();
            assert(segs_view(res@) =~= before.push(done@));
            assert(segs_view(res@).push(cur@) =~= split_segs(p@.take(i as int)).push(seq![]));
        } else {
            let ghost old_cur = cur@;
            cur.push(p[i]);
            assert(segs_view(res@).push(cur@) =~= before.push(old_cur).update(
                before.len() as int,
                old_cur.push(p@[i as int]),
            ));
        }
        i = i + 1;
    }
    assert(p@.take(p.len() as int) =~= p@);
    let ghost before = segs_view(res@);
    let last = cur;
    res.push(last);
    assert(segs_view(res@) =~= before.push(last@));
    res
}

/// The views of a vector of segments.
pub open spec fn segs_view(segs: Seq<Vec<char>>) -> Seq<Seq<char>> {
    segs.map_values(|s: Vec<char>| s@)
}

/// One component of a path.
pub enum Comp {
    /// The root `/` at the start of an absolute path.
    Root,
    /// `.` as the first segment of a relative path.
    Cur,
    /// `..`.
    Parent,
    /// Any other non-empty segment.
    Normal(Seq<char>),
}

/// Whether `p` is absolute: it starts with `/`.
pub open spec fn is_abs(p: Seq<char>) -> bool {
    p.len() > 0 && p[0] == '/'
}

/// The segment `.`.
pub open spec fn dot() -> Seq<char> {
    seq!['.']
}

/// The segment `..`.
pub open spec fn dotdot() -> Seq<char> {
    seq!['.', '.']
}

/// Whether segment `i` gives a component: the first segment of an absolute path gives the
/// root; otherwise a segment gives one unless it is empty, or `.` anywhere but first.
pub open spec fn keeps(segs: Seq<Seq<char>>, abs: bool, i: int) -> bool {
    (abs && i == 0) || (segs[i].len() > 0 && (segs[i] != dot() || i == 0))
}

/// The component that segment `i` gives.
pub open spec fn comp_at(segs: Seq<Seq<char>>, abs: bool, i: int) -> Comp {
    if abs && i == 0 {
        Comp::Root
    } else if segs[i] == dot() {
        Comp::Cur
    } else if segs[i] == dotdot() {
        Comp::Parent
    } else {
        Comp::Normal(segs[i])
    }
}

/// The components that the first `n` segments give.
pub open spec fn comps_upto(segs: Seq<Seq<char>>, abs: bool, n: int) -> Seq<Comp>
    decreases n,
{
    if n <= 0 {
        seq![]
    } else if keeps(segs, abs, n - 1) {
        comps_upto(segs, abs, n - 1).push(comp_at(segs, abs, n - 1))
    } else {
        comps_upto(segs, abs, n - 1)
    }
}

/// The components of `p`.
pub open spec fn components(p: Seq<char>) -> Seq<Comp> {
    comps_upto(split_segs(p), is_abs(p), split_segs(p).len() as int)
}

/// The components of fewer segments are a prefix of those of more.
pub proof fn lemma_comps_prefix(segs: Seq<Seq<char>>, abs: bool, a: int, b: int)
    requires
        0 <= a <= b,
    ensures
        comps_upto(segs, abs, a).len() <= comps_upto(segs, abs, b).len(),
        comps_upto(segs, abs, b).take(comps_upto(segs, abs, a).len() as int) == comps_upto(
            segs,
            abs,
            a,
        ),
    decreases b - a,
{
    if a < b {
        lemma_comps_prefix(segs, abs, a, b - 1);
        let ca = comps_upto(segs, abs, a);
        let cb1 = comps_upto(segs, abs, b - 1);
        if keeps(segs, abs, b - 1) {
            assert(cb1.push(comp_at(segs, abs, b - 1)).take(ca.len() as int) =~= cb1.take(
                ca.len() as int,
            ));
        }
    } else {
        assert(comps_upto(segs, abs, b).take(comps_upto(segs, abs, a).len() as int)
            =~= comps_upto(segs, abs, a));
    }
}

/// What `kept_indices` computes: the segment of each component, in order.
pub open spec fn is_kept_index_list(segs: Seq<Seq<char>>, abs: bool, n: int, kept: Seq<usize>) -> bool {
    &&& comps_upto(segs, abs, n).len() == kept.len()
    &&& forall|k: int|
        0 <= k < kept.len() ==> {
            &&& kept[k] < n
            &&& keeps(segs, abs, kept[k] as int)
            &&& #[trigger] comps_upto(segs, abs, n)[k] == comp_at(segs, abs, kept[k] as int)
            &&& comps_upto(segs, abs, kept[k] + 1).len() == k + 1
        }
    &&& forall|j: int|
        0 <= j < n && keeps(segs, abs, j) ==> {
            &&& comps_upto(segs, abs, j).len() < kept.len()
            &&& kept[comps_upto(segs, abs, j).len() as int] == j
        }
}

/// Whether the first segment is the root of an absolute path.
fn segs_abs(p: &Vec<char>) -> (res: bool)
    ensures
        res == is_abs(p@),
{
    p.len() > 0 && p[0] == '/'
}

/// Whether a segment is `.`.
fn is_dot(s: &Vec<char>) -> (res: bool)
    ensures
        res == (s@ == dot()),
{
    let r = s.len() == 1 && s[0] == '.';
    proof {
        if s@.len() == 1 && s@[0] == '.' {
            assert(s@ =~= dot());
        }
    }
    r
}

/// Whether a segment is `..`.
fn is_dotdot(s: &Vec<char>) -> (res: bool)
    ensures
        res == (s@ == dotdot()),
{
    let r = s.len() == 2 && s[0] == '.' && s[1] == '.';
    proof {
        if s@.len() == 2 && s@[0] == '.' && s@[1] == '.' {
            assert(s@ =~= dotdot());
        }
    }
    r
}

/// Whether segment `i` gives a component.
fn seg_keeps(segs: &Vec<Vec<char>>, abs: bool, i: usize) -> (res: bool)
    requires
        i < segs.len(),
    ensures
        res == keeps(segs_view(segs@), abs, i as int),
{
    (abs && i == 0) || (segs[i].len() > 0 && (!is_dot(&segs[i]) || i == 0))
}

/// The segment of each component of a path, in order.
pub fn kept_indices(segs: &Vec<Vec<char>>, abs: bool) -> (res: Vec<usize>)
    ensures
        is_kept_index_list(segs_view(segs@), abs, segs.len() as int, res@),
{
    let ghost sv = segs_view(segs@);
    let mut kept: Vec<usize> = Vec::new();
    let mut i: usize = 0;
    while i < segs.len()
        invariant
            i <= segs.len(),
            sv == segs_view(segs@),
            is_kept_index_list(sv, abs, i as int, kept@),
        decreases segs.len() - i,
    {
        if seg_keeps(segs, abs, i) {
            let ghost old_kept = kept@;
            kept.push(i);
            proof {
                assert(comps_upto(sv, abs, i + 1) == comps_upto(sv, abs, i as int).push(
                    comp_at(sv, abs, i as int),
                ));
                assert forall|k: int| 0 <= k < kept@.len() implies {
                    &&& kept@[k] < i + 1
                    &&& keeps(sv, abs, kept@[k] as int)
                    &&& #[trigger] comps_upto(sv, abs, i + 1)[k] == comp_at(sv, abs, kept@[k] as int)
                    &&& comps_upto(sv, abs, kept@[k] + 1).len() == k + 1
                } by {
                    if k < old_kept.len() {
                        assert(comps_upto(sv, abs, i as int)[k] == comp_at(sv, abs, old_kept[k] as int));
                    }
                }
            }
        }
        i = i + 1;
    }
    kept
}

/// Whether a segment gives no component in the middle of a path: it is empty or `.`.
pub open spec fn is_filler(s: Seq<char>) -> bool {
    s.len() == 0 || s == dot()
}

/// Drops the leading empty and `.` segments.
pub open spec fn trim_front(r: Seq<Seq<char>>) -> Seq<Seq<char>>
    decreases r.len(),
{
    if r.len() > 0 && is_filler(r[0]) {
        trim_front(r.drop_first())
    } else {
        r
    }
}

/// Drops the trailing empty and `.` segments.
pub open spec fn trim_back(r: Seq<Seq<char>>) -> Seq<Seq<char>>
    decreases r.len(),
{
    if r.len() > 0 && is_filler(r.last()) {
        trim_back(r.drop_last())
    } else {
        r
    }
}

/// Whether the first `n` segments give exactly `m` components, the last of them from
/// segment `n - 1`.
pub open spec fn is_cut(segs: Seq<Seq<char>>, abs: bool, m: int, n: int) -> bool {
    &&& 1 <= n <= segs.len()
    &&& keeps(segs, abs, n - 1)
    &&& comps_upto(segs, abs, n).len() == m
}

/// What `Path::strip_prefix` gives on Unix: where the components of `base` begin those of `p`,
/// the rest of `p` after them, without leading or trailing separators and `.` segments.
/// Defined for a `base` with at least one component.
pub open spec fn strip_prefix(p: Seq<char>, base: Seq<char>) -> Option<Seq<char>> {
    let segs = split_segs(p);
    let abs = is_abs(p);
    let cb = components(base);
    if exists|n: int| is_cut(segs, abs, cb.len() as int, n) && comps_upto(segs, abs, n) == cb {
        let n = choose|n: int| is_cut(segs, abs, cb.len() as int, n) && comps_upto(segs, abs, n) == cb;
        Some(join_segs(trim_back(trim_front(segs.skip(n)))))
    } else {
        None
    }
}

/// Whether a segment is empty or `.`.
fn seg_is_filler(s: &Vec<char>) -> (res: bool)
    ensures
        res == is_filler(s@),
{
    s.len() == 0 || is_dot(s)
}

/// Whether two segments are equal.
fn seg_eq(a: &Vec<char>, b: &Vec<char>) -> (res: bool)
    ensures
        res == (a@ == b@),
{
    if a.len() != b.len() {
        return false;
    }
    let mut i: usize = 0;
    while i < a.len()
        invariant
            a.len() == b.len(),
            i <= a.len(),
            forall|j: int| 0 <= j < i ==> a@[j] == b@[j],
        decreases a.len() - i,
    {
        if a[i] != b[i] {
            return false;
        }
        i = i + 1;
    }
    assert(a@ =~= b@);
    true
}

/// The segments `segs[from..to]` joined with `/`.
fn join_range(segs: &Vec<Vec<char>>, from: usize, to: usize) -> (res: String)
    requires
        from <= to <= segs.len(),
    ensures
        res@ == join_segs(segs_view(segs@).subrange(from as int, to as int)),
{
    let ghost sv = segs_view(segs@);
    let mut res = String::new();
    let mut i = from;
    assert(sv.subrange(from as int, from as int) =~= seq![]);
    while i < to
        invariant
            from <= i <= to <= segs.len(),
            sv == segs_view(segs@),
            res@ == join_segs(sv.subrange(from as int, i as int)),
        decreases to - i,
    {
        if i > from {
            push_char(&mut res, '/');
        }
        let mut j: usize = 0;
        let ghost base = res@;
        while j < segs[i].len()
            invariant
                i < segs.len(),
                j <= segs[i as int].len(),
                res@ == base + segs[i as int]@.take(j as int),
            decreases segs[i as int].len() - j,
        {
            push_char(&mut res, segs[i][j]);
            assert(segs[i as int]@.take(j + 1) =~= segs[i as int]@.take(j as int).push(
                segs[i as int]@[j as int],
            ));
            j = j + 1;
        }
        assert(segs[i as int]@.take(j as int) =~= segs[i as int]@);
        let ghost r = sv.subrange(from as int, i + 1);
        if i > from {
            assert(r.drop_last() =~= sv.subrange(from as int, i as int));
            assert(res@ =~= join_segs(r.drop_last()) + seq!['/'] + r.last());
        } else {
            assert(r =~= seq![sv[i as int]]);
            assert(res@ =~= r[0]);
        }
        i = i + 1;
    }
    res
}

/// Two components of segments are equal exactly when both are roots, or neither is and
/// their segments are equal.
proof fn lemma_comp_eq(
    sa: Seq<Seq<char>>,
    absa: bool,
    i: int,
    sb: Seq<Seq<char>>,
    absb: bool,
    j: int,
)
    ensures
        (comp_at(sa, absa, i) == comp_at(sb, absb, j)) <==> ((absa && i == 0) == (absb && j == 0)
            && ((absa && i == 0) || sa[i] == sb[j])),
{
}

/// The cut after `m` components, if any, is the one after the segment of the `m`-th component.
proof fn lemma_cut_unique(segs: Seq<Seq<char>>, abs: bool, kept: Seq<usize>, m: int, n: int)
    requires
        is_kept_index_list(segs, abs, segs.len() as int, kept),
        1 <= m,
        is_cut(segs, abs, m, n),
    ensures
        m <= kept.len(),
        n == kept[m - 1] + 1,
{
    let j = n - 1;
    assert(comps_upto(segs, abs, j + 1) == comps_upto(segs, abs, j).push(comp_at(segs, abs, j)));
}

/// The rest of a sequence of segments after dropping its leading filler from position `a`.
fn skip_fillers_front(segs: &Vec<Vec<char>>, n: usize) -> (res: usize)
    requires
        n <= segs.len(),
    ensures
        n <= res <= segs.len(),
        trim_front(segs_view(segs@).skip(n as int)) == segs_view(segs@).skip(res as int),
{
    let ghost sv = segs_view(segs@);
    let mut a = n;
    while a < segs.len() && seg_is_filler(&segs[a])
        invariant
            n <= a <= segs.len(),
            sv == segs_view(segs@),
            trim_front(sv.skip(n as int)) == trim_front(sv.skip(a as int)),
        decreases segs.len() - a,
    {
        assert(sv.skip(a as int).drop_first() =~= sv.skip(a + 1));
        a = a + 1;
    }
    if a == segs.len() {
        assert(sv.skip(a as int) =~= seq![]);
    }
    a
}

/// The end of a range of segments once its trailing filler is dropped.
fn skip_fillers_back(segs: &Vec<Vec<char>>, a: usize) -> (res: usize)
    requires
        a <= segs.len(),
    ensures
        a <= res <= segs.len(),
        trim_back(segs_view(segs@).skip(a as int)) == segs_view(segs@).subrange(a as int, res as int),
{
    let ghost sv = segs_view(segs@);
    let mut b = segs.len();
    assert(sv.skip(a as int) =~= sv.subrange(a as int, b as int));
    while b > a && seg_is_filler(&segs[b - 1])
        invariant
            a <= b <= segs.len(),
            sv == segs_view(segs@),
            trim_back(sv.skip(a as int)) == trim_back(sv.subrange(a as int, b as int)),
        decreases b,
    {
        assert(sv.subrange(a as int, b as int).drop_last() =~= sv.subrange(a as int, b - 1));
        b = b - 1;
    }
    if b == a {
        assert(sv.subrange(a as int, b as int) =~= seq![]);
    }
    b
}

/// The segments and components of a path.
struct Parsed {
    segs: Vec<Vec<char>>,
    abs: bool,
    kept: Vec<usize>,
}

/// Splits `p` into segments and finds its components.
fn parse_path(p: &str) -> (res: Parsed)
    ensures
        segs_view(res.segs@) == split_segs(p@),
        res.abs == is_abs(p@),
        is_kept_index_list(split_segs(p@), is_abs(p@), split_segs(p@).len() as int, res.kept@),
{
    let chars = chars_of(p);
    let segs = split_path(&chars);
    let abs = segs_abs(&chars);
    let kept = kept_indices(&segs, abs);
    Parsed { segs, abs, kept }
}

/// `Path::strip_prefix` on Unix (see `strip_prefix`).
pub fn path_strip_prefix(p: &str, base: &str) -> (res: Option<String>)
    requires
        components(base@).len() >= 1,
    ensures
        match res {
            Some(r) => strip_prefix(p@, base@) == Some(r@),
            None => strip_prefix(p@, base@) is None,
        },
{
    let pp = parse_path(p);
    let bp = parse_path(base);
    let ghost ps = segs_view(pp.segs@);
    let ghost bs = segs_view(bp.segs@);
    let ghost cb = components(base@);
    let m = bp.kept.len();
    proof {
        lemma_split_nonempty(p@);
    }
    if pp.kept.len() < m {
        proof {
            if exists|n: int| is_cut(ps, pp.abs, m as int, n) && comps_upto(ps, pp.abs, n) == cb {
                let n = choose|n: int| is_cut(ps, pp.abs, m as int, n) && comps_upto(ps, pp.abs, n) == cb;
                lemma_cut_unique(ps, pp.abs, pp.kept@, m as int, n);
            }
        }
        return None;
    }
    proof {
        assert(comps_upto(ps, pp.abs, ps.len() as int)[m - 1] == comp_at(ps, pp.abs, pp.kept@[m - 1] as int));
        assert(pp.kept@[m - 1] < pp.segs.len());
    }
    let n0 = pp.kept[m - 1] + 1;
    proof {
        lemma_comps_prefix(ps, pp.abs, n0 as int, ps.len() as int);
        assert(is_cut(ps, pp.abs, m as int, n0 as int));
    }
    let mut k: usize = 0;
    while k < m
        invariant
            k <= m,
            m == bp.kept.len(),
            m <= pp.kept.len(),
            ps == segs_view(pp.segs@),
            bs == segs_view(bp.segs@),
            ps == split_segs(p@),
            bs == split_segs(base@),
            pp.abs == is_abs(p@),
            bp.abs == is_abs(base@),
            cb == components(base@),
            cb == comps_upto(bs, bp.abs, bs.len() as int),
            is_kept_index_list(ps, pp.abs, ps.len() as int, pp.kept@),
            is_kept_index_list(bs, bp.abs, bs.len() as int, bp.kept@),
            n0 == pp.kept@[m - 1] + 1,
            comps_upto(ps, pp.abs, n0 as int).len() == m,
            comps_upto(ps, pp.abs, ps.len() as int).take(m as int) == comps_upto(ps, pp.abs, n0 as int),
            forall|t: int| 0 <= t < k ==> comps_upto(ps, pp.abs, n0 as int)[t] == cb[t],
        decreases m - k,
    {
        let i = pp.kept[k];
        let j = bp.kept[k];
        let root_p = pp.abs && i == 0;
        let root_b = bp.abs && j == 0;
        proof {
            lemma_comp_eq(ps, pp.abs, i as int, bs, bp.abs, j as int);
            assert(comps_upto(ps, pp.abs, ps.len() as int)[k as int] == comp_at(ps, pp.abs, i as int));
            assert(cb[k as int] == comp_at(bs, bp.abs, j as int));
            assert(comps_upto(ps, pp.abs, n0 as int)[k as int] == comps_upto(ps, pp.abs, ps.len() as int)[k as int]);
        }
        if root_p != root_b || (!root_p && !seg_eq(&pp.segs[i], &bp.segs[j])) {
            proof {
                if exists|n: int| is_cut(ps, pp.abs, m as int, n) && comps_upto(ps, pp.abs, n) == cb {
                    let n = choose|n: int| is_cut(ps, pp.abs, m as int, n) && comps_upto(ps, pp.abs, n) == cb;
                    lemma_cut_unique(ps, pp.abs, pp.kept@, m as int, n);
                    assert(n == n0);
                    assert(comps_upto(ps, pp.abs, n)[k as int] == cb[k as int]);
                    assert(comp_at(ps, pp.abs, i as int) == comp_at(bs, bp.abs, j as int));
                    assert(false);
                }
            }
            return None;
        }
        k = k + 1;
    }
    assert(comps_upto(ps, pp.abs, n0 as int) =~= cb);
    let a = skip_fillers_front(&pp.segs, n0);
    let b = skip_fillers_back(&pp.segs, a);
    let res = join_range(&pp.segs, a, b);
    proof {
        let n = choose|n: int| is_cut(ps, pp.abs, m as int, n) && comps_upto(ps, pp.abs, n) == cb;
        lemma_cut_unique(ps, pp.abs, pp.kept@, m as int, n);
    }
    Some(res)
}

/// Whether two paths are equal as `Path` values are compared on Unix: component by component,
/// so that `a/b`, `a//b`, `a/./b` and `a/b/` are the same path.
pub open spec fn same_path(a: Seq<char>, b: Seq<char>) -> bool {
    components(a) == components(b)
}

/// Whether two paths are the same path (see `same_path`).
pub fn path_eq(a: &str, b: &str) -> (res: bool)
    ensures
        res == same_path(a@, b@),
{
    let pa = parse_path(a);
    let pb = parse_path(b);
    let ghost sa = segs_view(pa.segs@);
    let ghost sb = segs_view(pb.segs@);
    let ghost ca = components(a@);
    let ghost cb = components(b@);
    if pa.kept.len() != pb.kept.len() {
        return false;
    }
    let mut k: usize = 0;
    while k < pa.kept.len()
        invariant
            k <= pa.kept.len(),
            pa.kept.len() == pb.kept.len(),
            sa == segs_view(pa.segs@),
            sb == segs_view(pb.segs@),
            sa == split_segs(a@),
            sb == split_segs(b@),
            pa.abs == is_abs(a@),
            pb.abs == is_abs(b@),
            ca == components(a@),
            cb == components(b@),
            ca == comps_upto(sa, pa.abs, sa.len() as int),
            cb == comps_upto(sb, pb.abs, sb.len() as int),
            is_kept_index_list(sa, pa.abs, sa.len() as int, pa.kept@),
            is_kept_index_list(sb, pb.abs, sb.len() as int, pb.kept@),
            forall|t: int| 0 <= t < k ==> ca[t] == cb[t],
        decreases pa.kept.len() - k,
    {
        let i = pa.kept[k];
        let j = pb.kept[k];
        let root_a = pa.abs && i == 0;
        let root_b = pb.abs && j == 0;
        proof {
            lemma_comp_eq(sa, pa.abs, i as int, sb, pb.abs, j as int);
            assert(ca[k as int] == comp_at(sa, pa.abs, i as int));
            assert(cb[k as int] == comp_at(sb, pb.abs, j as int));
        }
        if root_a != root_b || (!root_a && !seg_eq(&pa.segs[i], &pb.segs[j])) {
            return false;
        }
        k = k + 1;
    }
    assert(ca =~= cb);
    true
}

/// `Path::join` on Unix: an absolute `b` replaces `a`; otherwise `b` is appended to `a`, with a
/// `/` between them unless `a` is empty or already ends with one.
pub open spec fn join_path(a: Seq<char>, b: Seq<char>) -> Seq<char> {
    if is_abs(b) {
        b
    } else if a.len() > 0 && a.last() != '/' {
        a + seq!['/'] + b
    } else {
        a + b
    }
}

/// `Path::join` on Unix (see `join_path`).
pub fn path_join(a: &str, b: &str) -> (res: String)
    ensures
        res@ == join_path(a@, b@),
{
    let bc = chars_of(b);
    if segs_abs(&bc) {
        return b.to_owned();
    }
    let ac = chars_of(a);
    let mut res = a.to_owned();
    if ac.len() > 0 && ac[ac.len() - 1] != '/' {
        push_char(&mut res, '/');
    }
    res.append(b);
    res
}

/// Whether `p` is relative (not absolute).
pub fn path_is_relative(p: &str) -> (res: bool)
    ensures
        res == !is_abs(p@),
{
    let c = chars_of(p);
    !segs_abs(&c)
}

/// Whether `p` is absolute.
pub fn path_is_absolute(p: &str) -> (res: bool)
    ensures
        res == is_abs(p@),
{
    let c = chars_of(p);
    segs_abs(&c)
}

/// The segment of the last component of a path, given its kept index list.
pub open spec fn last_comp_seg(segs: Seq<Seq<char>>, abs: bool) -> int {
    (choose|n: int| is_cut(segs, abs, comps_upto(segs, abs, segs.len() as int).len() as int, n)) - 1
}

/// The text of a path up to (not including) its segment `j`, without trailing separators or
/// `.` segments, keeping its root or leading `.`.
pub open spec fn parent_text(segs: Seq<Seq<char>>, abs: bool, j: int) -> Seq<char> {
    let r = segs.take(j);
    if abs {
        seq!['/'] + join_segs(trim_back(r.skip(1)))
    } else if j > 0 && segs[0] == dot() {
        let t = trim_back(r.skip(1));
        if t.len() == 0 {
            dot()
        } else {
            dot() + seq!['/'] + join_segs(t)
        }
    } else {
        join_segs(trim_back(r))
    }
}

/// `Path::parent` on Unix: `None` where the path has no components or its last one is the
/// root; otherwise the path without its last component.
pub open spec fn parent(p: Seq<char>) -> Option<Seq<char>> {
    let segs = split_segs(p);
    let abs = is_abs(p);
    let cs = components(p);
    if cs.len() == 0 {
        None
    } else {
        let j = last_comp_seg(segs, abs);
        if cs.last() is Root {
            None
        } else {
            Some(parent_text(segs, abs, j))
        }
    }
}

/// `Path::file_name` on Unix: the last component where it is a plain name.
pub open spec fn file_name(p: Seq<char>) -> Option<Seq<char>> {
    let cs = components(p);
    if cs.len() > 0 && cs.last() is Normal {
        Some(cs.last()->Normal_0)
    } else {
        None
    }
}

/// The first segment of an absolute path is empty.
pub proof fn lemma_abs_first_seg(p: Seq<char>)
    requires
        is_abs(p),
    ensures
        split_segs(p)[0] == Seq::<char>::empty(),
        split_segs(p).len() >= 2,
    decreases p.len(),
{
    lemma_split_nonempty(p);
    if p.len() > 1 {
        let q = p.drop_last();
        assert(q[0] == '/');
        lemma_abs_first_seg(q);
        lemma_split_nonempty(q);
    } else {
        assert(p.drop_last() =~= seq![]);
        assert(split_segs(p.drop_last()) =~= seq![seq![]]);
    }
}

/// `Path::parent` on Unix (see `parent`).
pub fn path_parent(p: &str) -> (res: Option<String>)
    ensures
        match res {
            Some(r) => parent(p@) == Some(r@),
            None => parent(p@) is None,
        },
{
    let pp = parse_path(p);
    let ghost segs = split_segs(p@);
    let ghost cs = components(p@);
    let n = pp.kept.len();
    if n == 0 {
        return None;
    }
    let j = pp.kept[n - 1];
    proof {
        assert(cs[n - 1] == comp_at(segs, pp.abs, j as int));
        assert(is_cut(segs, pp.abs, n as int, j + 1));
        let k = choose|k: int| is_cut(segs, pp.abs, comps_upto(segs, pp.abs, segs.len() as int).len() as int, k);
        lemma_cut_unique(segs, pp.abs, pp.kept@, n as int, k);
        assert(last_comp_seg(segs, pp.abs) == j);
    }
    if pp.abs && j == 0 {
        return None;
    }
    let mut res = String::new();
    if pp.abs {
        proof {
            lemma_abs_first_seg(p@);
        }
        let b = skip_fillers_back_upto(&pp.segs, 1, j);
        push_char(&mut res, '/');
        let body = join_range(&pp.segs, 1, b);
        res.append(body.as_str());
        proof {
            assert(segs.take(j as int).skip(1) =~= segs.subrange(1, j as int));
        }
    } else if j > 0 && is_dot(&pp.segs[0]) {
        let b = skip_fillers_back_upto(&pp.segs, 1, j);
        proof {
            assert(segs.take(j as int).skip(1) =~= segs.subrange(1, j as int));
            reveal_strlit(".");
        }
        push_char(&mut res, '.');
        if b > 1 {
            push_char(&mut res, '/');
            let body = join_range(&pp.segs, 1, b);
            res.append(body.as_str());
            assert(res@ =~= dot() + seq!['/'] + join_segs(segs.subrange(1, b as int)));
        } else {
            assert(res@ =~= dot());
        }
    } else {
        let b = skip_fillers_back_upto(&pp.segs, 0, j);
        let body = join_range(&pp.segs, 0, b);
        res.append(body.as_str());
        proof {
            assert(segs.take(j as int) =~= segs.subrange(0, j as int));
        }
    }
    Some(res)
}

/// The end of `segs[a..b]` once its trailing filler is dropped.
fn skip_fillers_back_upto(segs: &Vec<Vec<char>>, a: usize, b0: usize) -> (res: usize)
    requires
        a <= b0 <= segs.len(),
    ensures
        a <= res <= b0,
        trim_back(segs_view(segs@).subrange(a as int, b0 as int)) == segs_view(segs@).subrange(a as int, res as int),
{
    let ghost sv = segs_view(segs@);
    let mut b = b0;
    while b > a && seg_is_filler(&segs[b - 1])
        invariant
            a <= b <= b0 <= segs.len(),
            sv == segs_view(segs@),
            trim_back(sv.subrange(a as int, b0 as int)) == trim_back(sv.subrange(a as int, b as int)),
        decreases b,
    {
        assert(sv.subrange(a as int, b as int).drop_last() =~= sv.subrange(a as int, b - 1));
        b = b - 1;
    }
    if b == a {
        assert(sv.subrange(a as int, b as int) =~= seq![]);
    }
    b
}

/// `Path::file_name` on Unix (see `file_name`).
pub fn path_file_name(p: &str) -> (res: Option<String>)
    ensures
        match res {
            Some(r) => file_name(p@) == Some(r@),
            None => file_name(p@) is None,
        },
{
    let pp = parse_path(p);
    let ghost segs = split_segs(p@);
    let n = pp.kept.len();
    if n == 0 {
        return None;
    }
    let j = pp.kept[n - 1];
    proof {
        assert(components(p@)[n - 1] == comp_at(segs, pp.abs, j as int));
    }
    if (pp.abs && j == 0) || is_dot(&pp.segs[j]) || is_dotdot(&pp.segs[j]) {
        return None;
    }
    let len = pp.segs[j].len();
    let name = crate::text::string_of(&pp.segs[j], 0, len);
    assert(pp.segs[j as int]@.subrange(0, len as int) =~= pp.segs[j as int]@);
    Some(name)
}

/// `p` without its trailing `/` characters.
pub open spec fn trim_trailing_slashes(p: Seq<char>) -> Seq<char>
    decreases p.len(),
{
    if p.len() > 0 && p.last() == '/' {
        trim_trailing_slashes(p.drop_last())
    } else {
        p
    }
}

/// Drops the trailing separators of a path, except where the path is only its root.
pub open spec fn normalize_trailing_separator(p: Seq<char>) -> Seq<char> {
    if !(p.len() > 0 && p.last() == '/') || (is_abs(p) && parent(p) is None) {
        p
    } else {
        trim_trailing_slashes(p)
    }
}

/// Drops the trailing separators of a path, except where the path is only its root (see
/// `normalize_trailing_separator`).
pub fn path_trim_trailing_separator(p: &str) -> (res: String)
    ensures
        res@ == normalize_trailing_separator(p@),
{
    let chars = chars_of(p);
    let has_trailing = chars.len() > 0 && chars[chars.len() - 1] == '/';
    if !has_trailing || (segs_abs(&chars) && path_parent(p).is_none()) {
        return p.to_owned();
    }
    let mut end = chars.len();
    assert(chars@.take(end as int) =~= p@);
    while end > 0 && chars[end - 1] == '/'
        invariant
            end <= chars.len(),
            chars@ == p@,
            trim_trailing_slashes(p@) == trim_trailing_slashes(chars@.take(end as int)),
        decreases end,
    {
        assert(chars@.take(end as int).drop_last() =~= chars@.take(end - 1));
        end = end - 1;
    }
    let res = crate::text::string_of(&chars, 0, end);
    assert(chars@.subrange(0, end as int) =~= chars@.take(end as int));
    assert(p@.take(p@.len() as int) =~= p@);
    res
}

/// A path without its trailing `/`s does not end with one.
proof fn lemma_trim_trailing_slashes_ends(p: Seq<char>)
    ensures
        !(trim_trailing_slashes(p).len() > 0 && trim_trailing_slashes(p).last() == '/'),
    decreases p.len(),
{
    if p.len() > 0 && p.last() == '/' {
        lemma_trim_trailing_slashes_ends(p.drop_last());
    }
}

/// Dropping trailing separators twice is dropping them once.
pub proof fn lemma_normalize_trailing_idempotent(p: Seq<char>)
    ensures
        normalize_trailing_separator(normalize_trailing_separator(p))
            == normalize_trailing_separator(p),
{
    lemma_trim_trailing_slashes_ends(p);
}

/// Joining a relative path to an absolute one gives an absolute path.
pub proof fn lemma_join_abs(a: Seq<char>, b: Seq<char>)
    requires
        is_abs(a),
    ensures
        is_abs(join_path(a, b)),
{
    if !is_abs(b) {
        if a.last() != '/' {
            assert((a + seq!['/'] + b)[0] == a[0]);
        } else {
            assert((a + b)[0] == a[0]);
        }
    }
}

/// A path made only of `/` has only empty segments.
proof fn lemma_all_slashes_empty_segs(p: Seq<char>)
    requires
        forall|i: int| 0 <= i < p.len() ==> p[i] == '/',
    ensures
        forall|j: int| 0 <= j < split_segs(p).len() ==> split_segs(p)[j].len() == 0,
    decreases p.len(),
{
    if p.len() > 0 {
        lemma_all_slashes_empty_segs(p.drop_last());
        assert(p.last() == '/');
        assert(split_segs(p) == split_segs(p.drop_last()).push(seq![]));
    } else {
        assert(split_segs(p) == seq![Seq::<char>::empty()]);
    }
}

/// A component other than the root comes from a non-empty segment.
proof fn lemma_nonroot_comp_nonempty_seg(segs: Seq<Seq<char>>, abs: bool, n: int, k: int)
    requires
        0 <= n <= segs.len(),
        0 <= k < comps_upto(segs, abs, n).len(),
        !(comps_upto(segs, abs, n)[k] is Root),
    ensures
        exists|j: int| 0 <= j < segs.len() && segs[j].len() > 0,
    decreases n,
{
    if n > 0 {
        let c = comps_upto(segs, abs, n - 1);
        if keeps(segs, abs, n - 1) && k == c.len() {
            assert(segs[n - 1].len() > 0);
        } else {
            lemma_nonroot_comp_nonempty_seg(segs, abs, n - 1, k);
        }
    }
}

/// Dropping the trailing `/` of a path with another character keeps a non-empty prefix.
proof fn lemma_trim_slashes_prefix(p: Seq<char>, i: int)
    requires
        0 <= i < p.len(),
        p[i] != '/',
    ensures
        trim_trailing_slashes(p).len() > i,
        trim_trailing_slashes(p)[0] == p[0],
    decreases p.len(),
{
    if p.last() == '/' {
        lemma_trim_slashes_prefix(p.drop_last(), i);
    }
}

/// Dropping trailing separators keeps an absolute path absolute.
pub proof fn lemma_normalize_trailing_abs(p: Seq<char>)
    requires
        is_abs(p),
    ensures
        is_abs(normalize_trailing_separator(p)),
{
    if (p.len() > 0 && p.last() == '/') && !(is_abs(p) && parent(p) is None) {
        let segs = split_segs(p);
        let cs = components(p);
        assert(!(cs.last() is Root));
        lemma_nonroot_comp_nonempty_seg(segs, true, segs.len() as int, cs.len() - 1);
        if forall|i: int| 0 <= i < p.len() ==> p[i] == '/' {
            lemma_all_slashes_empty_segs(p);
            let j = choose|j: int| 0 <= j < segs.len() && segs[j].len() > 0;
            assert(false);
        }
        let i = choose|i: int| 0 <= i < p.len() && p[i] != '/';
        lemma_trim_slashes_prefix(p, i);
    }
}

/// The first segment of a path that does not start with `/` is its text up to the first `/`,
/// and is not empty where the path is not.
proof fn lemma_relative_first_seg(p: Seq<char>)
    requires
        p.len() > 0,
        p[0] != '/',
    ensures
        split_segs(p)[0].len() > 0,
    decreases p.len(),
{
    lemma_split_nonempty(p);
    let q = p.drop_last();
    lemma_split_nonempty(q);
    if q.len() == 0 {
        assert(split_segs(q) == seq![Seq::<char>::empty()]);
    } else {
        assert(q[0] != '/');
        lemma_relative_first_seg(q);
    }
}

/// A non-empty path has at least one component.
pub proof fn lemma_nonempty_components(p: Seq<char>)
    requires
        p.len() > 0,
    ensures
        components(p).len() >= 1,
{
    let segs = split_segs(p);
    let abs = is_abs(p);
    lemma_split_nonempty(p);
    if abs {
        lemma_abs_first_seg(p);
    } else {
        lemma_relative_first_seg(p);
    }
    assert(keeps(segs, abs, 0));
    assert(comps_upto(segs, abs, 0).len() == 0);
    assert(comps_upto(segs, abs, 1).len() == 1);
    lemma_comps_prefix(segs, abs, 1, segs.len() as int);
}

} // verus!
