//! Vectors of three scalars, and vectors that their maker vouches to be of
//! length one.

use crate::scalar::Scalar;
use vstd::prelude::*;

verus! {

/// A point or a direction in space.
#[derive(Clone, Copy, Debug, PartialEq, Eq, Structural)]
pub struct V3(pub Scalar, pub Scalar, pub Scalar);

impl V3 {
    /// Every component is a finite number.
    pub open spec fn spec_is_finite(self) -> bool {
        self.0.spec_is_finite() && self.1.spec_is_finite() && self.2.spec_is_finite()
    }

    /// The opposite vector.
    pub open spec fn spec_neg(self) -> V3 {
        V3(self.0.spec_neg(), self.1.spec_neg(), self.2.spec_neg())
    }

    /// The vector with every component that is not a finite number replaced by zero.
    pub open spec fn spec_nan_safe(self) -> V3 {
        V3(self.0.spec_nan_safe(), self.1.spec_nan_safe(), self.2.spec_nan_safe())
    }

    /// The origin.
    pub fn zero() -> (r: V3)
        ensures
            r == V3(Scalar { bits: 0 }, Scalar { bits: 0 }, Scalar { bits: 0 }),
    {
        V3(Scalar::zero(), Scalar::zero(), Scalar::zero())
    }

    pub fn x(&self) -> (r: Scalar)
        ensures
            r == self.0,
    {
        self.0
    }

    pub fn y(&self) -> (r: Scalar)
        ensures
            r == self.1,
    {
        self.1
    }

    pub fn z(&self) -> (r: Scalar)
        ensures
            r == self.2,
    {
        self.2
    }

    /// The opposite vector: every component with its sign turned over.
    #[verifier::when_used_as_spec(spec_neg)]
    pub fn neg(self) -> (r: V3)
        ensures
            r == self.spec_neg(),
    {
        V3(self.0.neg(), self.1.neg(), self.2.neg())
    }

    /// Replaces every component that is not a finite number by zero.
    #[verifier::when_used_as_spec(spec_nan_safe)]
    pub fn nan_safe(self) -> (r: V3)
        ensures
            r == self.spec_nan_safe(),
            r.spec_is_finite(),
    {
        V3(self.0.nan_safe(), self.1.nan_safe(), self.2.nan_safe())
    }
}

/// A direction: a vector that whoever made it holds to be of length one.
/// The library takes that on trust and never looks at the length.
#[derive(Clone, Copy, Debug, PartialEq, Eq, Structural)]
pub struct V3U(V3);

impl View for V3U {
    type V = V3;

    closed spec fn view(&self) -> V3 {
        self.0
    }
}

impl V3U {
    /// The direction with the given components. Nothing checks its length.
    pub fn unsafe_new(x: Scalar, y: Scalar, z: Scalar) -> (r: V3U)
        ensures
            r@ == V3(x, y, z),
    {
        V3U(V3(x, y, z))
    }

    pub fn x(&self) -> (r: Scalar)
        ensures
            r == self@.0,
    {
        (self.0).0
    }

    pub fn y(&self) -> (r: Scalar)
        ensures
            r == self@.1,
    {
        (self.0).1
    }

    pub fn z(&self) -> (r: Scalar)
        ensures
            r == self@.2,
    {
        (self.0).2
    }

    /// The opposite direction, which is of length one where this one is.
    pub fn reversed(self) -> (r: V3U)
        ensures
            r@ == self@.spec_neg(),
    {
        V3U(self.0.neg())
    }

    /// The direction as a plain vector.
    pub fn as_v3(self) -> (r: V3)
        ensures
            r == self@,
    {
        self.0
    }
}

} // verus!
