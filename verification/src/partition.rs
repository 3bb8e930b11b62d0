//! Static domain decomposition: disjoint, exhaustive slabs of the voxel
//! iteration space.

use vstd::prelude::*;

verus! {

/// The ranges form consecutive half-open slabs `[start, end)` that begin at
/// 0 and end at `n`: each worker owns one, none overlap, none is skipped.
pub open spec fn slabs_cover(r: Seq<(usize, usize)>, n: int) -> bool {
    &&& r.len() >= 1
    &&& r[0].0 == 0
    &&& r[r.len() - 1].1 == n
    &&& forall|i: int| 0 <= i < r.len() ==> (#[trigger] r[i]).0 <= r[i].1
    &&& forall|i: int| 0 <= i < r.len() - 1 ==> (#[trigger] r[i]).1 == r[i + 1].0
}

/// Splits the iteration range `[0, n)` into `w` consecutive slabs of near
/// size `⌈n / w⌉`, covering every index exactly once.  Trailing slabs may be
/// empty when `w` exceeds `n`.
pub fn partition_ranges(n: usize, w: usize) -> (r: Vec<(usize, usize)>)
    requires
        1 <= w,
    ensures
        r@.len() == w,
        slabs_cover(r@, n as int),
{
    let chunk: usize = if n % w == 0 {
        n / w
    } else if n / w < n {
        n / w + 1
    } else {
        n
    };
    let mut r: Vec<(usize, usize)> = Vec::new();
    let mut cur: usize = 0;
    let mut i: usize = 0;
    while i < w
        invariant
            1 <= w,
            i <= w,
            r@.len() == i,
            cur <= n,
            i > 0 ==> r@[0].0 == 0,
            i > 0 ==> r@[i - 1].1 == cur,
            i == 0 ==> cur == 0,
            i == w ==> cur == n,
            forall|k: int| 0 <= k < i ==> (#[trigger] r@[k]).0 <= r@[k].1 <= n,
            forall|k: int| 0 <= k < i - 1 ==> (#[trigger] r@[k]).1 == r@[k + 1].0,
        decreases w - i,
    {
        let end: usize = if i + 1 == w {
            n
        } else if n - cur > chunk {
            cur + chunk
        } else {
            n
        };
        r.push((cur, end));
        cur = end;
        i = i + 1;
    }
    r
}

/// Consecutive slabs have monotone boundaries: a later slab starts no
/// earlier than an earlier one ends.
pub proof fn lemma_slab_bounds_monotone(r: Seq<(usize, usize)>, i: int, j: int)
    requires
        forall|k: int| 0 <= k < r.len() ==> (#[trigger] r[k]).0 <= r[k].1,
        forall|k: int| 0 <= k < r.len() - 1 ==> (#[trigger] r[k]).1 == r[k + 1].0,
        0 <= i < j < r.len(),
    ensures
        r[i].1 <= r[j].0,
    decreases j - i,
{
    if i + 1 == j {
    } else {
        lemma_slab_bounds_monotone(r, i + 1, j);
    }
}

/// Every slab lies inside the covered range: its bounds never pass `n`.
pub proof fn lemma_slab_end_bound(r: Seq<(usize, usize)>, n: int, k: int)
    requires
        slabs_cover(r, n),
        0 <= k < r.len(),
    ensures
        r[k].0 <= r[k].1 <= n,
{
    if k < r.len() - 1 {
        lemma_slab_bounds_monotone(r, k, r.len() - 1);
    }
}

/// Coverage law of the domain decomposition: every index of the iteration
/// range `[0, n)` — and with it every voxel coordinate whose first component
/// it is — falls inside exactly one slab: at least one slab holds it, and
/// any two slabs holding it are the same.
pub proof fn lemma_partition_coverage(r: Seq<(usize, usize)>, n: int, x: int)
    requires
        slabs_cover(r, n),
        0 <= x < n,
    ensures
        exists|i: int| 0 <= i < r.len() && (#[trigger] r[i]).0 <= x < r[i].1,
        forall|i: int, j: int|
            (0 <= i < r.len() && 0 <= j < r.len() && (#[trigger] r[i]).0 <= x < r[i].1 && (
            #[trigger] r[j]).0 <= x < r[j].1) ==> i == j,
{
    lemma_some_slab_holds(r, n, x);
    assert forall|i: int, j: int|
        (0 <= i < r.len() && 0 <= j < r.len() && (#[trigger] r[i]).0 <= x < r[i].1 && (
        #[trigger] r[j]).0 <= x < r[j].1) implies i == j by {
        if i < j {
            lemma_slab_bounds_monotone(r, i, j);
        } else if j < i {
            lemma_slab_bounds_monotone(r, j, i);
        }
    }
}

/// Existence half of the coverage law, by induction over the slabs.
proof fn lemma_some_slab_holds(r: Seq<(usize, usize)>, n: int, x: int)
    requires
        r.len() >= 1,
        r[0].0 <= x,
        x < n,
        r[r.len() - 1].1 == n,
        forall|i: int| 0 <= i < r.len() ==> (#[trigger] r[i]).0 <= r[i].1,
        forall|i: int| 0 <= i < r.len() - 1 ==> (#[trigger] r[i]).1 == r[i + 1].0,
    ensures
        exists|i: int| 0 <= i < r.len() && (#[trigger] r[i]).0 <= x < r[i].1,
    decreases r.len(),
{
    if x < r[0].1 {
        assert(r[0].0 <= x < r[0].1);
    } else {
        let rest = r.subrange(1, r.len() as int);
        assert(r.len() >= 2);
        assert(rest[0].0 == r[1].0 == r[0].1 <= x);
        assert(rest[rest.len() - 1].1 == r[r.len() - 1].1);
        assert(forall|i: int|
            0 <= i < rest.len() ==> (#[trigger] rest[i]).0 == r[i + 1].0 && rest[i].1 == r[i
                + 1].1);
        lemma_some_slab_holds(rest, n, x);
        let w = choose|i: int| 0 <= i < rest.len() && (#[trigger] rest[i]).0 <= x < rest[i].1;
        assert(r[w + 1].0 <= x < r[w + 1].1);
    }
}

} // verus!
