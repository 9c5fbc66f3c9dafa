use crate::types::{ProcessInfo, ProcessSortBy};
use vstd::prelude::*;
use vstd::string::*;

verus! {

/// Lexicographic order of texts by character code.
pub open spec fn text_less(a: Seq<char>, b: Seq<char>) -> bool
    decreases a.len(),
{
    if a.len() == 0 {
        b.len() > 0
    } else if b.len() == 0 {
        false
    } else if a[0] != b[0] {
        a[0] < b[0]
    } else {
        text_less(a.drop_first(), b.drop_first())
    }
}

/// The key of `a` is smaller than that of `b`. Disk orders fall back to CPU.
pub open spec fn key_less(a: ProcessInfo, b: ProcessInfo, by: ProcessSortBy) -> bool {
    match by {
        ProcessSortBy::Memory => a.mem < b.mem,
        ProcessSortBy::Name => text_less(a.name@, b.name@),
        ProcessSortBy::Pid => a.pid_num < b.pid_num,
        _ => a.cpu < b.cpu,
    }
}

/// `a` must come before `b` in the chosen direction.
pub open spec fn goes_before(a: ProcessInfo, b: ProcessInfo, by: ProcessSortBy, ascending: bool) -> bool {
    if ascending {
        key_less(a, b, by)
    } else {
        key_less(b, a, by)
    }
}

/// `result` is `input` stably sorted, where `perm[k]` is the position in
/// `input` of the `k`-th element of `result`: a permutation, ordered by key,
/// and keeping the input order wherever keys do not decide.
pub open spec fn sorted_perm(
    result: Seq<ProcessInfo>,
    input: Seq<ProcessInfo>,
    perm: Seq<int>,
    by: ProcessSortBy,
    ascending: bool,
) -> bool {
    &&& result.len() == input.len()
    &&& perm.len() == input.len()
    &&& forall|k: int| 0 <= k < perm.len() ==> 0 <= #[trigger] perm[k] < input.len()
    &&& forall|k: int, l: int| 0 <= k < l < perm.len() ==> perm[k] != perm[l]
    &&& forall|k: int| 0 <= k < result.len() ==> #[trigger] result[k] == input[perm[k]]
    &&& forall|k: int, l: int|
        0 <= k < l < result.len() ==> !goes_before(result[l], result[k], by, ascending)
    &&& forall|k: int, l: int|
        0 <= k < l < result.len() && perm[k] > perm[l] ==> goes_before(
            result[k],
            result[l],
            by,
            ascending,
        )
}

proof fn lemma_text_less_irreflexive_asym(a: Seq<char>, b: Seq<char>)
    ensures
        text_less(a, b) ==> !text_less(b, a),
    decreases a.len(),
{
    if a.len() > 0 && b.len() > 0 && a[0] == b[0] {
        lemma_text_less_irreflexive_asym(a.drop_first(), b.drop_first());
    }
}

proof fn lemma_text_less_transitive(a: Seq<char>, b: Seq<char>, c: Seq<char>)
    requires
        text_less(a, b),
        text_less(b, c),
    ensures
        text_less(a, c),
    decreases a.len(),
{
    if a.len() > 0 && b.len() > 0 && c.len() > 0 && a[0] == b[0] && b[0] == c[0] {
        lemma_text_less_transitive(a.drop_first(), b.drop_first(), c.drop_first());
    }
}

proof fn lemma_text_less_total(a: Seq<char>, b: Seq<char>)
    ensures
        a != b ==> text_less(a, b) || text_less(b, a),
    decreases a.len(),
{
    if a.len() > 0 && b.len() > 0 && a[0] == b[0] {
        lemma_text_less_total(a.drop_first(), b.drop_first());
        if a != b {
            assert(a =~= seq![a[0]] + a.drop_first());
            assert(b =~= seq![b[0]] + b.drop_first());
        }
    } else if a.len() == 0 && b.len() == 0 {
        assert(a =~= b);
    }
}

/// Keys form a strict weak order: asymmetric, and `a < b` with `c` not
/// below `b` gives `a < c`.
proof fn lemma_order_facts(a: ProcessInfo, b: ProcessInfo, c: ProcessInfo, by: ProcessSortBy, ascending: bool)
    ensures
        goes_before(a, b, by, ascending) ==> !goes_before(b, a, by, ascending),
        goes_before(a, b, by, ascending) && !goes_before(c, b, by, ascending) ==> goes_before(
            a,
            c,
            by,
            ascending,
        ),
        goes_before(c, a, by, ascending) && goes_before(a, b, by, ascending) ==> goes_before(
            c,
            b,
            by,
            ascending,
        ),
{
    if by == ProcessSortBy::Name {
        lemma_text_less_irreflexive_asym(a.name@, b.name@);
        lemma_text_less_irreflexive_asym(b.name@, a.name@);
        lemma_text_less_total(b.name@, c.name@);
        lemma_text_less_total(c.name@, b.name@);
        if ascending {
            if text_less(a.name@, b.name@) && !text_less(c.name@, b.name@) {
                if b.name@ != c.name@ {
                    lemma_text_less_transitive(a.name@, b.name@, c.name@);
                }
            }
            if text_less(c.name@, a.name@) && text_less(a.name@, b.name@) {
                lemma_text_less_transitive(c.name@, a.name@, b.name@);
            }
        } else {
            if text_less(b.name@, a.name@) && !text_less(b.name@, c.name@) {
                if b.name@ != c.name@ {
                    lemma_text_less_transitive(c.name@, b.name@, a.name@);
                }
            }
            if text_less(a.name@, c.name@) && text_less(b.name@, a.name@) {
                lemma_text_less_transitive(b.name@, a.name@, c.name@);
            }
        }
    }
}

/// Lexicographic comparison of two texts by character code.
pub fn text_before(a: &str, b: &str) -> (r: bool)
    ensures
        r == text_less(a@, b@),
{
    let n = a.unicode_len();
    let m = b.unicode_len();
    let mut i: usize = 0;
    assert(a@.skip(0) =~= a@);
    assert(b@.skip(0) =~= b@);
    while i < n && i < m
        invariant
            n == a@.len(),
            m == b@.len(),
            i <= n,
            i <= m,
            text_less(a@, b@) == text_less(a@.skip(i as int), b@.skip(i as int)),
        decreases n - i,
    {
        let ca = a.get_char(i);
        let cb = b.get_char(i);
        assert(a@.skip(i as int)[0] == a@[i as int]);
        assert(b@.skip(i as int)[0] == b@[i as int]);
        if ca != cb {
            return ca < cb;
        }
        assert(a@.skip(i as int).drop_first() =~= a@.skip(i + 1));
        assert(b@.skip(i as int).drop_first() =~= b@.skip(i + 1));
        i = i + 1;
    }
    i == n && i < m
}

/// Whether `a` must come before `b` in the chosen order.
pub fn comes_before(a: &ProcessInfo, b: &ProcessInfo, by: &ProcessSortBy, ascending: bool) -> (r:
    bool)
    ensures
        r == goes_before(*a, *b, *by, ascending),
{
    let (x, y) = if ascending {
        (a, b)
    } else {
        (b, a)
    };
    match by {
        ProcessSortBy::Memory => x.mem < y.mem,
        ProcessSortBy::Name => text_before(x.name.as_str(), y.name.as_str()),
        ProcessSortBy::Pid => x.pid_num < y.pid_num,
        _ => x.cpu < y.cpu,
    }
}

/// Sorts the process table by one key, ascending or descending. The sort is
/// stable: rows whose keys are equal keep their order.
pub fn sort_processes(processes: &mut Vec<ProcessInfo>, sort_by: &ProcessSortBy, ascending: bool)
    ensures
        exists|perm: Seq<int>| sorted_perm(final(processes)@, old(processes)@, perm, *sort_by, ascending),
{
    let ghost input = processes@;
    let ghost by = *sort_by;
    let ghost mut perm: Seq<int> = seq![];
    let mut out: Vec<ProcessInfo> = Vec::new();
    let total = processes.len();
    let mut i: usize = 0;
    while i < total
        invariant
            total == input.len(),
            i <= total,
            processes@ == input.skip(i as int),
            by == *sort_by,
            out@.len() == i,
            perm.len() == i,
            forall|k: int| 0 <= k < i ==> 0 <= #[trigger] perm[k] < i,
            forall|k: int, l: int| 0 <= k < l < i ==> perm[k] != perm[l],
            forall|k: int| 0 <= k < i ==> #[trigger] out@[k] == input[perm[k]],
            forall|k: int, l: int|
                0 <= k < l < i ==> !goes_before(out@[l], out@[k], by, ascending),
            forall|k: int, l: int|
                0 <= k < l < i && perm[k] > perm[l] ==> goes_before(out@[k], out@[l], by, ascending),
        decreases total - i,
    {
        assert(processes@[0] == input[i as int]);
        let x = processes.remove(0);
        assert(processes@ =~= input.skip(i + 1));
        let mut p: usize = 0;
        while p < out.len() && !comes_before(&x, &out[p], sort_by, ascending)
            invariant
                by == *sort_by,
                p <= out@.len(),
                forall|k: int| 0 <= k < p ==> !goes_before(x, #[trigger] out@[k], by, ascending),
            decreases out@.len() - p,
        {
            p = p + 1;
        }
        let ghost old_out = out@;
        let ghost old_perm = perm;
        proof {
            if p < old_out.len() {
                assert(goes_before(x, old_out[p as int], by, ascending));
                assert forall|l: int| p <= l < old_out.len() implies goes_before(
                    x,
                    old_out[l],
                    by,
                    ascending,
                ) && !goes_before(old_out[l], x, by, ascending) by {
                    lemma_order_facts(x, old_out[p as int], old_out[l], by, ascending);
                    lemma_order_facts(old_out[l], x, old_out[p as int], by, ascending);
                }
            }
        }
        out.insert(p, x);
        proof {
            perm = old_perm.insert(p as int, i as int);
            assert forall|k: int, l: int| 0 <= k < l < i + 1 implies !goes_before(
                out@[l],
                out@[k],
                by,
                ascending,
            ) by {
                if k < p && l < p {
                    assert(out@[k] == old_out[k] && out@[l] == old_out[l]);
                } else if k < p && l == p {
                } else if k < p && l > p {
                    assert(out@[k] == old_out[k] && out@[l] == old_out[l - 1]);
                } else if k == p {
                    assert(out@[l] == old_out[l - 1]);
                } else {
                    assert(out@[k] == old_out[k - 1] && out@[l] == old_out[l - 1]);
                }
            }
            assert forall|k: int, l: int| 0 <= k < l < i + 1 && perm[k] > perm[l] implies goes_before(
                out@[k],
                out@[l],
                by,
                ascending,
            ) by {
                if k < p && l < p {
                    assert(out@[k] == old_out[k] && out@[l] == old_out[l]);
                } else if k < p && l == p {
                    assert(perm[k] == old_perm[k]);
                } else if k < p && l > p {
                    assert(out@[k] == old_out[k] && out@[l] == old_out[l - 1]);
                } else if k == p {
                    assert(out@[l] == old_out[l - 1]);
                } else {
                    assert(out@[k] == old_out[k - 1] && out@[l] == old_out[l - 1]);
                }
            }
            assert forall|k: int| 0 <= k < i + 1 implies #[trigger] out@[k] == input[perm[k]] by {
                if k < p {
                    assert(out@[k] == old_out[k]);
                } else if k > p {
                    assert(out@[k] == old_out[k - 1]);
                }
            }
            assert forall|k: int, l: int| 0 <= k < l < i + 1 implies perm[k] != perm[l] by {
                if k < p && l < p {
                } else if k < p && l == p {
                    assert(old_perm[k] < i);
                } else if k < p && l > p {
                } else if k == p {
                    assert(old_perm[l - 1] < i);
                } else {
                }
            }
        }
        i = i + 1;
    }
    assert(sorted_perm(out@, input, perm, by, ascending));
    *processes = out;
}

/// Sorting one input both ways: rows with different keys come out in
/// opposite orders, and rows with equal keys keep their input order in both.
pub proof fn lemma_sort_directions(
    input: Seq<ProcessInfo>,
    desc: Seq<ProcessInfo>,
    desc_perm: Seq<int>,
    asc: Seq<ProcessInfo>,
    asc_perm: Seq<int>,
    by: ProcessSortBy,
)
    requires
        sorted_perm(desc, input, desc_perm, by, false),
        sorted_perm(asc, input, asc_perm, by, true),
    ensures
        forall|k: int, l: int, k2: int, l2: int|
            0 <= k < l < desc.len() && 0 <= k2 < asc.len() && 0 <= l2 < asc.len()
                && desc_perm[k] == asc_perm[k2] && desc_perm[l] == asc_perm[l2] && (key_less(
                desc[k],
                desc[l],
                by,
            ) || key_less(desc[l], desc[k], by)) ==> l2 < k2,
        forall|k: int, l: int, k2: int, l2: int|
            0 <= k < l < desc.len() && 0 <= k2 < asc.len() && 0 <= l2 < asc.len()
                && desc_perm[k] == asc_perm[k2] && desc_perm[l] == asc_perm[l2] && !key_less(
                desc[k],
                desc[l],
                by,
            ) && !key_less(desc[l], desc[k], by) ==> desc_perm[k] < desc_perm[l] && k2 < l2,
{
    assert forall|k: int, l: int, k2: int, l2: int|
        0 <= k < l < desc.len() && 0 <= k2 < asc.len() && 0 <= l2 < asc.len() && desc_perm[k]
            == asc_perm[k2] && desc_perm[l] == asc_perm[l2] && (key_less(desc[k], desc[l], by)
            || key_less(desc[l], desc[k], by)) implies l2 < k2 by {
        assert(desc[k] == input[desc_perm[k]]);
        assert(desc[l] == input[desc_perm[l]]);
        assert(asc[k2] == input[asc_perm[k2]]);
        assert(asc[l2] == input[asc_perm[l2]]);
        lemma_order_facts(desc[k], desc[l], desc[k], by, false);
        lemma_order_facts(desc[k], desc[l], desc[k], by, true);
        assert(!goes_before(desc[l], desc[k], by, false));
        if k2 == l2 {
        } else if k2 < l2 {
            assert(!goes_before(asc[l2], asc[k2], by, true));
        }
    }
    assert forall|k: int, l: int, k2: int, l2: int|
        0 <= k < l < desc.len() && 0 <= k2 < asc.len() && 0 <= l2 < asc.len() && desc_perm[k]
            == asc_perm[k2] && desc_perm[l] == asc_perm[l2] && !key_less(desc[k], desc[l], by)
            && !key_less(desc[l], desc[k], by) implies desc_perm[k] < desc_perm[l] && k2 < l2 by {
        assert(desc[k] == input[desc_perm[k]]);
        assert(desc[l] == input[desc_perm[l]]);
        assert(asc[k2] == input[asc_perm[k2]]);
        assert(asc[l2] == input[asc_perm[l2]]);
        if desc_perm[k] > desc_perm[l] {
            assert(goes_before(desc[k], desc[l], by, false));
        }
        if k2 > l2 {
            assert(goes_before(asc[l2], asc[k2], by, true));
        }
    }
}

/// A strictly decreasing sequence of `n` positions below `n` counts down
/// from `n - 1`.
proof fn lemma_strictly_decreasing_positions(p: Seq<int>, n: int, k: int)
    requires
        p.len() == n,
        forall|a: int| 0 <= a < n ==> 0 <= #[trigger] p[a] < n,
        forall|a: int, b: int| 0 <= a < b < n ==> p[a] > p[b],
        0 <= k < n,
    ensures
        p[k] == n - 1 - k,
{
    assert forall|a: int| 0 <= a < n implies p[a] <= n - 1 - a by {
        lemma_upper(p, n, a);
    }
    assert forall|a: int| 0 <= a < n implies p[a] >= n - 1 - a by {
        lemma_lower(p, n, a);
    }
}

proof fn lemma_upper(p: Seq<int>, n: int, a: int)
    requires
        p.len() == n,
        forall|x: int| 0 <= x < n ==> 0 <= #[trigger] p[x] < n,
        forall|x: int, y: int| 0 <= x < y < n ==> p[x] > p[y],
        0 <= a < n,
    ensures
        p[a] <= n - 1 - a,
    decreases a,
{
    if a > 0 {
        lemma_upper(p, n, a - 1);
    }
}

proof fn lemma_lower(p: Seq<int>, n: int, a: int)
    requires
        p.len() == n,
        forall|x: int| 0 <= x < n ==> 0 <= #[trigger] p[x] < n,
        forall|x: int, y: int| 0 <= x < y < n ==> p[x] > p[y],
        0 <= a < n,
    ensures
        p[a] >= n - 1 - a,
    decreases n - a,
{
    if a < n - 1 {
        lemma_lower(p, n, a + 1);
    }
}

/// Sorting a CPU-descending table again by CPU ascending reverses it when no
/// two rows share a CPU value.
pub proof fn lemma_resort_reverses(
    input: Seq<ProcessInfo>,
    desc: Seq<ProcessInfo>,
    desc_perm: Seq<int>,
    asc: Seq<ProcessInfo>,
    asc_perm: Seq<int>,
)
    requires
        sorted_perm(desc, input, desc_perm, ProcessSortBy::Cpu, false),
        sorted_perm(asc, desc, asc_perm, ProcessSortBy::Cpu, true),
        forall|k: int, l: int| 0 <= k < l < desc.len() ==> desc[k].cpu != desc[l].cpu,
    ensures
        asc == desc.reverse(),
{
    let n = desc.len() as int;
    assert forall|a: int, b: int| 0 <= a < b < n implies asc_perm[a] > asc_perm[b] by {
        assert(asc[a] == desc[asc_perm[a]]);
        assert(asc[b] == desc[asc_perm[b]]);
        assert(!goes_before(asc[b], asc[a], ProcessSortBy::Cpu, true));
        if asc_perm[a] < asc_perm[b] {
            assert(!goes_before(desc[asc_perm[b]], desc[asc_perm[a]], ProcessSortBy::Cpu, false));
            assert(desc[asc_perm[a]].cpu != desc[asc_perm[b]].cpu);
        }
    }
    assert forall|k: int| 0 <= k < n implies asc[k] == desc.reverse()[k] by {
        lemma_strictly_decreasing_positions(asc_perm, n, k);
        assert(asc[k] == desc[asc_perm[k]]);
    }
    assert(asc =~= desc.reverse());
}

} // verus!
