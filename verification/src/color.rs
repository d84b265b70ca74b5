//! Radiance in three channels.

use crate::scalar::Scalar;
use crate::vector::V3;
use vstd::prelude::*;

verus! {

/// Red, green and blue radiance.
#[derive(Clone, Copy, Debug, PartialEq, Eq, Structural)]
pub struct Color(V3);

impl View for Color {
    type V = V3;

    closed spec fn view(&self) -> V3 {
        self.0
    }
}

impl Color {
    /// Every channel is zero: the colour of what sends out no light.
    pub open spec fn spec_is_black(self) -> bool {
        self@.0.spec_is_zero() && self@.1.spec_is_zero() && self@.2.spec_is_zero()
    }

    /// The largest channel, by `Scalar::spec_max` from the right.
    pub open spec fn spec_max_channel(self) -> Scalar {
        self@.0.spec_max(self@.1.spec_max(self@.2))
    }

    /// No light at all.
    pub fn black() -> (r: Color)
        ensures
            r@ == V3(Scalar { bits: 0 }, Scalar { bits: 0 }, Scalar { bits: 0 }),
            r.spec_is_black(),
    {
        Color(V3::zero())
    }

    /// The colour with the given channels.
    pub fn new(r: Scalar, g: Scalar, b: Scalar) -> (c: Color)
        ensures
            c@ == V3(r, g, b),
    {
        Color(V3(r, g, b))
    }

    /// The three channels as a vector.
    pub fn as_v3(self) -> (r: V3)
        ensures
            r == self@,
    {
        self.0
    }

    /// Whether every channel is zero.
    #[verifier::when_used_as_spec(spec_is_black)]
    pub fn is_black(self) -> (r: bool)
        ensures
            r == self.spec_is_black(),
    {
        (self.0).0.is_zero() && (self.0).1.is_zero() && (self.0).2.is_zero()
    }

    /// The largest channel.
    #[verifier::when_used_as_spec(spec_max_channel)]
    pub fn max_channel(self) -> (r: Scalar)
        ensures
            r == self.spec_max_channel(),
    {
        (self.0).0.max((self.0).1.max((self.0).2))
    }

    /// Replaces every channel that is not a finite number by zero.
    pub fn nan_safe(self) -> (r: Color)
        ensures
            r@ == self@.spec_nan_safe(),
            r@.spec_is_finite(),
    {
        Color(self.0.nan_safe())
    }
}

} // verus!
