//! Spheres, the records of where a ray meets one, and the choices that an
//! intersection and a scattering direction rest on.

use crate::color::Color;
use crate::scalar::Scalar;
use crate::vector::{V3, V3U};
use vstd::prelude::*;

verus! {

/// The pattern of 0.001: a normal whose first component is larger in
/// magnitude counts as leaning towards the first axis.
pub const AXIS_THRESHOLD_BITS: u32 = 0x3a83_126f;

/// How a surface scatters light.
#[derive(Clone, Copy, Debug, PartialEq, Eq, Structural)]
pub enum Material {
    /// Ideal diffuse reflection.
    Diffuse,
}

/// A sphere.
#[derive(Clone, Copy, Debug, PartialEq, Eq, Structural)]
pub struct Object {
    pub center: V3,
    pub radius: Scalar,
    /// The albedo.
    pub color: Color,
    /// What the sphere sends out itself; black for a sphere that is no light.
    pub emission: Color,
    pub material: Material,
}

impl Object {
    /// The sphere is a light: its emission is not black.
    pub open spec fn spec_is_emissive(&self) -> bool {
        !self.emission.spec_is_black()
    }

    /// Whether the sphere is a light.
    #[verifier::when_used_as_spec(spec_is_emissive)]
    pub fn is_emissive(&self) -> (r: bool)
        ensures
            r == self.spec_is_emissive(),
    {
        !self.emission.is_black()
    }
}

/// Where a ray meets a sphere.
#[derive(Clone, Copy, Debug, PartialEq, Eq, Structural)]
pub struct HitRecord {
    /// The distance along the ray.
    pub at: Scalar,
    /// The point in space.
    pub point: V3,
    /// The normal of the surface there, on the side the ray came from.
    pub normal: V3U,
    /// The index of the sphere in the scene's list of objects.
    pub object: usize,
}

impl HitRecord {
    /// The hit lies strictly inside the stretch of the ray from `tmin` to `tmax`.
    pub open spec fn spec_in_range(&self, tmin: Scalar, tmax: Scalar) -> bool {
        self.at.spec_is_between(tmin, tmax)
    }

    /// Whether the hit lies strictly inside the stretch from `tmin` to `tmax`.
    #[verifier::when_used_as_spec(spec_in_range)]
    pub fn in_range(&self, tmin: Scalar, tmax: Scalar) -> (r: bool)
        ensures
            r == self.spec_in_range(tmin, tmax),
    {
        self.at.is_between(tmin, tmax)
    }
}

/// One of the two places where the line of a ray cuts a sphere.
#[derive(Clone, Copy, Debug, PartialEq, Eq, Structural)]
pub enum Root {
    /// Where the line enters the sphere.
    Near,
    /// Where it leaves.
    Far,
}

/// The root at which a ray hits a sphere, given the reduced discriminant of
/// the quadratic and its two roots in ascending order: none unless the
/// discriminant is positive; else the first of the two that lies strictly
/// between `tmin` and `tmax`. A ray that only touches the sphere misses it.
pub open spec fn spec_select_root(
    discriminant: Scalar,
    near: Scalar,
    far: Scalar,
    tmin: Scalar,
    tmax: Scalar,
) -> Option<Root> {
    if !discriminant.spec_gt(Scalar { bits: 0 }) {
        None
    } else if near.spec_is_between(tmin, tmax) {
        Some(Root::Near)
    } else if far.spec_is_between(tmin, tmax) {
        Some(Root::Far)
    } else {
        None
    }
}

/// The root at which a ray hits a sphere, see [`spec_select_root`].
#[verifier::when_used_as_spec(spec_select_root)]
pub fn select_root(discriminant: Scalar, near: Scalar, far: Scalar, tmin: Scalar, tmax: Scalar) -> (r:
    Option<Root>)
    ensures
        r == spec_select_root(discriminant, near, far, tmin, tmax),
{
    if !discriminant.gt(Scalar::zero()) {
        None
    } else if near.is_between(tmin, tmax) {
        Some(Root::Near)
    } else if far.is_between(tmin, tmax) {
        Some(Root::Far)
    } else {
        None
    }
}

/// No ray hits a sphere whose two roots both lie at or before `tmin`, nor
/// one whose roots are not numbers.
pub proof fn lemma_roots_behind_miss(
    discriminant: Scalar,
    near: Scalar,
    far: Scalar,
    tmin: Scalar,
    tmax: Scalar,
)
    requires
        !tmin.spec_lt(near),
        !tmin.spec_lt(far),
    ensures
        spec_select_root(discriminant, near, far, tmin, tmax) is None,
{
}

/// The normal on the side a ray came from: the outward normal, turned round
/// where it points along the ray, that is where `alignment`, its dot product
/// with the direction of the ray, is positive. The ray then leaves the
/// sphere from inside.
pub open spec fn spec_orient_normal(outward: V3U, alignment: Scalar) -> V3 {
    if alignment.spec_gt(Scalar { bits: 0 }) {
        outward@.spec_neg()
    } else {
        outward@
    }
}

/// The normal on the side a ray came from, see [`spec_orient_normal`].
pub fn orient_normal(outward: V3U, alignment: Scalar) -> (r: V3U)
    ensures
        r@ == spec_orient_normal(outward, alignment),
{
    if alignment.gt(Scalar::zero()) {
        outward.reversed()
    } else {
        outward
    }
}

/// An axis of the world.
#[derive(Clone, Copy, Debug, PartialEq, Eq, Structural)]
pub enum Axis {
    X,
    Y,
}

/// The axis to build a basis round `normal` from: the first axis, unless
/// the first component of the normal exceeds 0.001 in magnitude; then the
/// second.
pub open spec fn spec_helper_axis(normal: V3U) -> Axis {
    if normal@.0.spec_abs().spec_gt(Scalar { bits: AXIS_THRESHOLD_BITS }) {
        Axis::Y
    } else {
        Axis::X
    }
}

/// The axis to build a basis round `normal` from, see [`spec_helper_axis`].
#[verifier::when_used_as_spec(spec_helper_axis)]
pub fn helper_axis(normal: V3U) -> (r: Axis)
    ensures
        r == spec_helper_axis(normal),
{
    if normal.x().abs().gt(Scalar::from_bits(AXIS_THRESHOLD_BITS)) {
        Axis::Y
    } else {
        Axis::X
    }
}

} // verus!
