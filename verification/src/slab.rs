//! The slab test: where a ray meets an axis-aligned box.
//!
//! For each axis the caller computes the two ray parameters at which the ray
//! crosses the box's two bounding planes of that axis, in floating point, and
//! hands over their ranks. The box is hit where the three per-axis parameter
//! intervals overlap.
use vstd::prelude::*;
use crate::rank::{Rank, below, above, is_below, is_above};

verus! {

/// The two crossing parameters of one axis, smaller first; a pair that does
/// not compare greater-than (one side NaN) is left as it is.
pub open spec fn ordered(p: (Rank, Rank)) -> (Rank, Rank) {
    if above(p.0, p.1) { (p.1, p.0) } else { p }
}

/// Narrows the interval `[lo, hi]` to the interval `[a, b]` of another axis,
/// or `None` where the two are found disjoint.
pub open spec fn narrow(lo: Rank, hi: Rank, a: Rank, b: Rank) -> Option<(Rank, Rank)> {
    if above(lo, b) || above(a, hi) {
        None
    } else {
        Some((if above(a, lo) { a } else { lo }, if below(b, hi) { b } else { hi }))
    }
}

/// What the slab test reports for the crossing parameters `x`, `y`, `z` of
/// the three axes and the nearest distance `near` that counts as a hit:
/// `None` for a miss, else the rank of the hit distance.
///
/// This follows the comparisons one by one, so that it also says what
/// happens to a NaN among the inputs.
#[verifier::opaque]
pub open spec fn slab_outcome(x: (Rank, Rank), y: (Rank, Rank), z: (Rank, Rank), near: Rank) -> Option<Rank> {
    let px = ordered(x);
    let py = ordered(y);
    let pz = ordered(z);
    match narrow(px.0, px.1, py.0, py.1) {
        None => None,
        Some(xy) => match narrow(xy.0, xy.1, pz.0, pz.1) {
            None => None,
            Some(xyz) => {
                let d = if above(xyz.0, near) { xyz.0 } else { xyz.1 };
                if below(d, near) { None } else { Some(d) }
            },
        },
    }
}

/// No NaN among the inputs.
pub open spec fn all_ranked(x: (Rank, Rank), y: (Rank, Rank), z: (Rank, Rank), near: Rank) -> bool {
    &&& x.0 is Some && x.1 is Some
    &&& y.0 is Some && y.1 is Some
    &&& z.0 is Some && z.1 is Some
    &&& near is Some
}

pub open spec fn min_u32(a: u32, b: u32) -> u32 {
    if a <= b { a } else { b }
}

pub open spec fn max_u32(a: u32, b: u32) -> u32 {
    if a <= b { b } else { a }
}

/// Where the ray enters the box: the latest of the three entry parameters.
pub open spec fn entry(x: (Rank, Rank), y: (Rank, Rank), z: (Rank, Rank)) -> u32 {
    max_u32(
        max_u32(min_u32(x.0->0, x.1->0), min_u32(y.0->0, y.1->0)),
        min_u32(z.0->0, z.1->0),
    )
}

/// Where the ray leaves the box: the earliest of the three exit parameters.
pub open spec fn exit(x: (Rank, Rank), y: (Rank, Rank), z: (Rank, Rank)) -> u32 {
    min_u32(
        min_u32(max_u32(x.0->0, x.1->0), max_u32(y.0->0, y.1->0)),
        max_u32(z.0->0, z.1->0),
    )
}

/// The slab test as interval geometry, for inputs without NaN: the box is hit
/// when the ray's parameter interval inside it, `[entry, exit]`, is not empty
/// and does not end before `near`; the hit is at the entry when that lies
/// beyond `near`, else (the ray starts inside the box, or too close to its
/// surface) at the exit.
pub open spec fn slab_interval(x: (Rank, Rank), y: (Rank, Rank), z: (Rank, Rank), near: Rank) -> Option<Rank> {
    let t0 = entry(x, y, z);
    let t1 = exit(x, y, z);
    let n = near->0;
    if t0 <= t1 && n <= t1 {
        Some(Some(if n < t0 { t0 } else { t1 }))
    } else {
        None
    }
}

/// Without NaN among the inputs, the step-by-step slab test computes the
/// interval geometry of [`slab_interval`].
pub proof fn lemma_slab_is_interval_overlap(x: (Rank, Rank), y: (Rank, Rank), z: (Rank, Rank), near: Rank)
    requires
        all_ranked(x, y, z, near),
    ensures
        slab_outcome(x, y, z, near) == slab_interval(x, y, z, near),
{
    reveal(slab_outcome);
}

/// Which of an axis's two crossing parameters is named first does not matter
/// (inputs without NaN).
pub proof fn lemma_slab_pair_order_irrelevant(x: (Rank, Rank), y: (Rank, Rank), z: (Rank, Rank), near: Rank)
    requires
        all_ranked(x, y, z, near),
    ensures
        slab_outcome((x.1, x.0), y, z, near) == slab_outcome(x, y, z, near),
        slab_outcome(x, (y.1, y.0), z, near) == slab_outcome(x, y, z, near),
        slab_outcome(x, y, (z.1, z.0), near) == slab_outcome(x, y, z, near),
{
    lemma_slab_is_interval_overlap(x, y, z, near);
    lemma_slab_is_interval_overlap((x.1, x.0), y, z, near);
    lemma_slab_is_interval_overlap(x, (y.1, y.0), z, near);
    lemma_slab_is_interval_overlap(x, y, (z.1, z.0), near);
}

/// The order in which the three axes are tested does not matter (inputs
/// without NaN): exchanging any two axes gives the same outcome, and every
/// order of the axes is reached by such exchanges.
pub proof fn lemma_slab_axis_order_irrelevant(x: (Rank, Rank), y: (Rank, Rank), z: (Rank, Rank), near: Rank)
    requires
        all_ranked(x, y, z, near),
    ensures
        slab_outcome(y, x, z, near) == slab_outcome(x, y, z, near),
        slab_outcome(x, z, y, near) == slab_outcome(x, y, z, near),
        slab_outcome(z, y, x, near) == slab_outcome(x, y, z, near),
{
    lemma_slab_is_interval_overlap(x, y, z, near);
    lemma_slab_is_interval_overlap(y, x, z, near);
    lemma_slab_is_interval_overlap(x, z, y, near);
    lemma_slab_is_interval_overlap(z, y, x, near);
}

/// Sorts one axis's pair of crossing parameters.
fn order_pair(p: (Rank, Rank)) -> (r: (Rank, Rank))
    ensures
        r == ordered(p),
{
    if is_above(p.0, p.1) {
        (p.1, p.0)
    } else {
        p
    }
}

/// Tests a ray against an axis-aligned box.
///
/// `x`, `y` and `z` are the ranks of the ray parameters at which the ray
/// crosses the box's two planes on each axis (in either order), `near` the
/// rank of the smallest distance that counts as a hit. Returns `None` when
/// the ray misses the box, else the rank of the distance to the hit, which is
/// `None` only where NaN made its way to the result.
pub fn slab_distance(x: (Rank, Rank), y: (Rank, Rank), z: (Rank, Rank), near: Rank) -> (r: Option<Rank>)
    ensures
        r == slab_outcome(x, y, z, near),
        all_ranked(x, y, z, near) ==> r == slab_interval(x, y, z, near),
        all_ranked(x, y, z, near) && r is Some ==> !below(r->0, near),
{
    proof {
        reveal(slab_outcome);
        if all_ranked(x, y, z, near) {
            lemma_slab_is_interval_overlap(x, y, z, near);
        }
    }
    let (mut tmin, mut tmax) = order_pair(x);
    let (tymin, tymax) = order_pair(y);
    if is_above(tmin, tymax) || is_above(tymin, tmax) {
        return None;
    }
    if is_above(tymin, tmin) {
        tmin = tymin;
    }
    if is_below(tymax, tmax) {
        tmax = tymax;
    }
    let (tzmin, tzmax) = order_pair(z);
    if is_above(tmin, tzmax) || is_above(tzmin, tmax) {
        return None;
    }
    if is_above(tzmin, tmin) {
        tmin = tzmin;
    }
    if is_below(tzmax, tmax) {
        tmax = tzmax;
    }
    let distance = if is_above(tmin, near) { tmin } else { tmax };
    if is_below(distance, near) {
        return None;
    }
    Some(distance)
}

} // verus!
