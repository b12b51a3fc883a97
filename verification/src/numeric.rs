//! Index logic of the numeric kernel: bracket location for
//! interpolation and spline evaluation, and span/minimum searches used
//! by the rocking-curve analysis.  Keys are bit patterns of
//! non-negative doubles, ordered as the values they encode.
use vstd::prelude::*;

use crate::records::sp_sorted_strict;

verus! {

pub proof fn lemma_sorted_pairwise(v: Seq<u64>, a: int, b: int)
    requires
        sp_sorted_strict(v),
        0 <= a <= b < v.len(),
    ensures
        v[a] <= v[b],
    decreases b - a,
{
    if a < b {
        lemma_sorted_pairwise(v, a, b - 1);
        assert(v[b - 1] < v[b]);
    }
}

/// The first index whose key is at least `x`: the bracket's upper end
/// for linear interpolation over strictly increasing keys.
pub fn partition_point_geq(xs: &Vec<u64>, x: u64) -> (r: usize)
    requires
        sp_sorted_strict(xs@),
    ensures
        0 <= r <= xs@.len(),
        forall|j: int| 0 <= j < r ==> xs@[j] < x,
        forall|j: int| r <= j < xs@.len() ==> xs@[j] >= x,
{
    let mut lo: usize = 0;
    let mut hi: usize = xs.len();
    while lo < hi
        invariant
            sp_sorted_strict(xs@),
            0 <= lo <= hi <= xs@.len(),
            forall|j: int| 0 <= j < lo ==> xs@[j] < x,
            forall|j: int| hi <= j < xs@.len() ==> xs@[j] >= x,
        decreases hi - lo,
    {
        let mid = lo + (hi - lo) / 2;
        if xs[mid] < x {
            proof {
                assert forall|j: int| 0 <= j < mid + 1 implies xs@[j] < x by {
                    lemma_sorted_pairwise(xs@, j, mid as int);
                }
            }
            lo = mid + 1;
        } else {
            proof {
                assert forall|j: int| mid <= j < xs@.len() implies xs@[j] >= x by {
                    lemma_sorted_pairwise(xs@, mid as int, j);
                }
            }
            hi = mid;
        }
    }
    lo
}

/// The upper end of the spline bracket: the first index with key at
/// least `x`, clamped into `[1, len - 1]`, so that the bracket
/// `(r - 1, r)` extrapolates at both ends rather than clamping.
pub fn spline_bracket(xs: &Vec<u64>, x: u64) -> (r: usize)
    requires
        sp_sorted_strict(xs@),
        xs@.len() >= 2,
    ensures
        1 <= r < xs@.len(),
        xs@[r - 1] < x || r == 1,
        xs@[r as int] >= x || r == xs@.len() - 1,
{
    let p = partition_point_geq(xs, x);
    if p == 0 {
        1
    } else if p >= xs.len() {
        xs.len() - 1
    } else {
        p
    }
}

/// The first and last index holding a value at least `threshold`: the
/// contiguous span read off a rocking curve at half maximum.
pub fn span_at_least(values: &Vec<u64>, threshold: u64) -> (r: Option<(usize, usize)>)
    ensures
        match r {
            Some(p) => p.0 <= p.1 < values@.len() && values@[p.0 as int] >= threshold
                && values@[p.1 as int] >= threshold && (forall|j: int|
                0 <= j < p.0 ==> values@[j] < threshold) && (forall|j: int|
                p.1 < j < values@.len() ==> values@[j] < threshold),
            None => forall|j: int| 0 <= j < values@.len() ==> values@[j] < threshold,
        },
{
    let n = values.len();
    let mut first: usize = 0;
    let mut last: usize = 0;
    let mut found = false;
    let mut i: usize = 0;
    while i < n
        invariant
            0 <= i <= n == values@.len(),
            !found ==> forall|j: int| 0 <= j < i ==> values@[j] < threshold,
            found ==> first <= last < i && values@[first as int] >= threshold
                && values@[last as int] >= threshold && (forall|j: int|
                0 <= j < first ==> values@[j] < threshold) && (forall|j: int|
                last < j < i ==> values@[j] < threshold),
        decreases n - i,
    {
        if values[i] >= threshold {
            if !found {
                first = i;
                found = true;
            }
            last = i;
        }
        i = i + 1;
    }
    if found {
        Some((first, last))
    } else {
        None
    }
}

} // verus!
