//! The choice among the hits of one ray: which is nearest, and whether
//! anything is in the way at all.

use crate::object::HitRecord;
use crate::scalar::Scalar;
use vstd::prelude::*;

verus! {

/// A ray meets this object strictly inside the stretch from `tmin` to `tmax`.
pub open spec fn counts(hit: Option<HitRecord>, tmin: Scalar, tmax: Scalar) -> bool {
    hit matches Some(record) && record.spec_in_range(tmin, tmax)
}

/// `hits[i]` counts and is the nearest hit that counts; among equally near
/// ones it is the first.
pub open spec fn is_nearest(hits: Seq<Option<HitRecord>>, tmin: Scalar, tmax: Scalar, i: int) -> bool {
    &&& 0 <= i < hits.len()
    &&& counts(hits[i], tmin, tmax)
    &&& forall|j: int|
        0 <= j < i && counts(#[trigger] hits[j], tmin, tmax) ==> hits[i].unwrap().at.spec_lt(
            hits[j].unwrap().at,
        )
    &&& forall|j: int|
        i < j < hits.len() && counts(#[trigger] hits[j], tmin, tmax) ==> !hits[j].unwrap().at.spec_lt(
            hits[i].unwrap().at,
        )
}

/// Nothing in `hits` counts.
pub open spec fn all_miss(hits: Seq<Option<HitRecord>>, tmin: Scalar, tmax: Scalar) -> bool {
    forall|j: int| 0 <= j < hits.len() ==> !counts(#[trigger] hits[j], tmin, tmax)
}

/// At most one index is that of the nearest hit.
pub proof fn lemma_nearest_is_unique(
    hits: Seq<Option<HitRecord>>,
    tmin: Scalar,
    tmax: Scalar,
    i: int,
    j: int,
)
    requires
        is_nearest(hits, tmin, tmax, i),
        is_nearest(hits, tmin, tmax, j),
    ensures
        i == j,
{
}

/// The index of the nearest hit among what one ray met, object by object:
/// the least distance strictly between `tmin` and `tmax`, and of several
/// that are equally near the first. `None` where nothing lies in that
/// stretch.
pub fn nearest_hit(hits: &Vec<Option<HitRecord>>, tmin: Scalar, tmax: Scalar) -> (r: Option<usize>)
    ensures
        match r {
            Some(i) => is_nearest(hits@, tmin, tmax, i as int),
            None => all_miss(hits@, tmin, tmax),
        },
{
    let mut best: Option<usize> = None;
    let mut k: usize = 0;
    while k < hits.len()
        invariant
            k <= hits.len(),
            match best {
                Some(i) => i < k && is_nearest(hits@.take(k as int), tmin, tmax, i as int),
                None => all_miss(hits@.take(k as int), tmin, tmax),
            },
        decreases hits.len() - k,
    {
        if let Some(record) = hits[k] {
            if record.in_range(tmin, tmax) {
                let nearer = match best {
                    Some(i) => record.at.lt(hits[i].unwrap().at),
                    None => true,
                };
                if nearer {
                    best = Some(k);
                }
            }
        }
        k = k + 1;
    }
    assert(hits@.take(k as int) == hits@);
    best
}

/// Whether light passes along a shadow ray: nothing that the ray met lies
/// strictly between `tmin` and `tmax`.
pub fn is_transported(hits: &Vec<Option<HitRecord>>, tmin: Scalar, tmax: Scalar) -> (r: bool)
    ensures
        r == all_miss(hits@, tmin, tmax),
{
    nearest_hit(hits, tmin, tmax).is_none()
}

} // verus!
