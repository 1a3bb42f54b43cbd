//! Choosing among the hits of one ray against many objects.
//!
//! Each object reports the rank of the distance at which the ray hits it, or
//! `None` when it is missed (a NaN distance is never closer than anything, so
//! it counts as a miss as well).
use vstd::prelude::*;
use crate::rank::{Rank, below, is_below};

verus! {

/// Some object is hit at a distance below `bound`.
pub open spec fn hit_within(hits: Seq<Rank>, bound: Rank) -> bool {
    exists|i: int| 0 <= i < hits.len() && below(#[trigger] hits[i], bound)
}

/// Object `i` is the hit that a scan for the nearest one within `bound`
/// settles on: it is hit within `bound`, no object is hit nearer, and every
/// earlier object hit within `bound` lies strictly farther (the first of
/// equally near hits wins).
pub open spec fn is_nearest(hits: Seq<Rank>, bound: Rank, i: int) -> bool {
    &&& 0 <= i < hits.len()
    &&& below(hits[i], bound)
    &&& forall|j: int| 0 <= j < hits.len() && below(#[trigger] hits[j], bound)
        ==> !below(hits[j], hits[i])
    &&& forall|j: int| 0 <= j < i && below(#[trigger] hits[j], bound)
        ==> below(hits[i], hits[j])
}

/// The object whose hit is nearest, among those hit at a distance below
/// `horizon`; `None` when no object is. Of equally near hits the first one
/// is taken.
pub fn nearest_hit(hits: &Vec<Rank>, horizon: Rank) -> (r: Option<usize>)
    ensures
        r is None <==> !hit_within(hits@, horizon),
        r matches Some(i) ==> is_nearest(hits@, horizon, i as int),
{
    let mut best: Option<usize> = None;
    let mut bound = horizon;
    let n = hits.len();
    for i in 0..n
        invariant
            n == hits@.len(),
            best is None ==> bound == horizon && forall|j: int|
                0 <= j < i ==> !below(#[trigger] hits@[j], horizon),
            best matches Some(b) ==> {
                &&& b < i
                &&& bound == hits@[b as int]
                &&& below(hits@[b as int], horizon)
                &&& forall|j: int| 0 <= j < i && below(#[trigger] hits@[j], horizon)
                    ==> !below(hits@[j], hits@[b as int])
                &&& forall|j: int| 0 <= j < b && below(#[trigger] hits@[j], horizon)
                    ==> below(hits@[b as int], hits@[j])
            },
    {
        if is_below(hits[i], bound) {
            best = Some(i);
            bound = hits[i];
        }
    }
    proof {
        if let Some(b) = best {
            assert(0 <= b < hits@.len() && below(hits@[b as int], horizon));
        }
    }
    best
}

/// Whether some object is hit at a distance below `limit`: the test for a
/// shadow, with `limit` the distance to the light.
pub fn any_hit_within(hits: &Vec<Rank>, limit: Rank) -> (r: bool)
    ensures
        r == hit_within(hits@, limit),
{
    let n = hits.len();
    for i in 0..n
        invariant
            n == hits@.len(),
            forall|j: int| 0 <= j < i ==> !below(#[trigger] hits@[j], limit),
    {
        if is_below(hits[i], limit) {
            assert(below(hits@[i as int], limit));
            return true;
        }
    }
    false
}

/// At most one object is the nearest hit within a bound.
pub proof fn lemma_nearest_is_unique(hits: Seq<Rank>, bound: Rank, i: int, j: int)
    requires
        is_nearest(hits, bound, i),
        is_nearest(hits, bound, j),
    ensures
        i == j,
{
    if i < j {
        assert(below(hits[j], hits[i]));
    } else if j < i {
        assert(below(hits[i], hits[j]));
    }
}

/// There is a nearest hit within a bound exactly when some object is hit
/// within it: the shadow test and the search for the visible object agree on
/// whether anything lies before a given distance.
pub proof fn lemma_nearest_exists_iff_hit_within(hits: Seq<Rank>, bound: Rank)
    ensures
        hit_within(hits, bound) <==> exists|i: int| is_nearest(hits, bound, i),
    decreases hits.len(),
{
    if hit_within(hits, bound) {
        let k = choose|k: int| 0 <= k < hits.len() && below(#[trigger] hits[k], bound);
        let w = nearest_witness(hits, bound, k);
        assert(is_nearest(hits, bound, w));
    }
}

/// An index of the nearest hit, given some hit `k` within the bound.
proof fn nearest_witness(hits: Seq<Rank>, bound: Rank, k: int) -> (w: int)
    requires
        0 <= k < hits.len(),
        below(hits[k], bound),
    ensures
        is_nearest(hits, bound, w),
    decreases hits.len(),
{
    let last = hits.len() - 1;
    let prefix = hits.take(last);
    if k == last && !hit_within(prefix, bound) {
        assert forall|j: int| 0 <= j < hits.len() && below(#[trigger] hits[j], bound)
            implies !below(hits[j], hits[k]) by {
            if j < last {
                assert(prefix[j] == hits[j]);
            }
        }
        assert forall|j: int| 0 <= j < k && below(#[trigger] hits[j], bound)
            implies below(hits[k], hits[j]) by {
            assert(prefix[j] == hits[j]);
        }
        k
    } else {
        let k2: int = if k < last {
            k
        } else {
            choose|m: int| 0 <= m < prefix.len() && below(#[trigger] prefix[m], bound)
        };
        assert(prefix[k2] == hits[k2]);
        let w = nearest_witness(prefix, bound, k2);
        assert(prefix[w] == hits[w]);
        if below(hits[last], hits[w]) {
            assert forall|j: int| 0 <= j < hits.len() && below(#[trigger] hits[j], bound)
                implies !below(hits[j], hits[last]) by {
                if j < last {
                    assert(prefix[j] == hits[j]);
                }
            }
            assert forall|j: int| 0 <= j < last && below(#[trigger] hits[j], bound)
                implies below(hits[last], hits[j]) by {
                assert(prefix[j] == hits[j]);
                assert(below(prefix[j], bound));
            }
            last
        } else {
            assert forall|j: int| 0 <= j < hits.len() && below(#[trigger] hits[j], bound)
                implies !below(hits[j], hits[w]) by {
                if j < last {
                    assert(prefix[j] == hits[j]);
                    assert(below(prefix[j], bound));
                }
            }
            assert forall|j: int| 0 <= j < w && below(#[trigger] hits[j], bound)
                implies below(hits[w], hits[j]) by {
                assert(prefix[j] == hits[j]);
                assert(below(prefix[j], bound));
            }
            w
        }
    }
}

} // verus!
