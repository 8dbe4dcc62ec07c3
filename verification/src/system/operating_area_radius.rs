//! Operating area radius.

use vstd::prelude::*;

verus! {

use crate::error::Error;

/// Radius of the operating area, in meters.
///
/// The wire format is one byte counting 10-meter steps, so the largest
/// representable radius is 2,550 meters.
#[derive(Clone, Copy, PartialEq, Eq, Structural, Debug)]
pub struct OperatingAreaRadius(u16);

impl OperatingAreaRadius {
    /// Largest representable radius, in meters.
    pub const MAX: u16 = 2_550;

    /// Meters per raw step.
    pub const MULTIPLIER: u16 = 10;

    /// Every radius this type can hold is at most the maximum; both
    /// constructors establish this.
    #[verifier::type_invariant]
    spec fn inv(self) -> bool {
        self.0 <= 2_550
    }

    /// The radius a value holds, in meters.
    pub closed spec fn spec_radius(self) -> u16 {
        self.0
    }

    /// Constructs a radius in meters; rejects anything above the maximum
    /// with [`Error::InvalidInteger`].
    pub fn try_new(radius: u16) -> (r: Result<OperatingAreaRadius, Error>)
        ensures
            radius <= 2_550 ==> (r matches Ok(a) && a.spec_radius() == radius),
            radius > 2_550 ==> r == Err::<OperatingAreaRadius, Error>(Error::InvalidInteger),
    {
        if radius > 2_550 {
            Err(Error::InvalidInteger)
        } else {
            Ok(OperatingAreaRadius(radius))
        }
    }

    /// Returns the radius in meters.
    pub fn radius(&self) -> (r: u16)
        ensures
            r == self.spec_radius(),
    {
        self.0
    }

    /// Decodes a raw byte: ten times the byte; never fails.
    pub fn decode(raw: u8) -> (r: OperatingAreaRadius)
        ensures
            r.spec_radius() == raw * 10,
    {
        OperatingAreaRadius(raw as u16 * 10)
    }

    /// Encodes into a raw byte: the radius in 10-meter steps, rounded down.
    pub fn encode(&self) -> (r: u8)
        ensures
            r == self.spec_radius() / 10,
    {
        proof {
            use_type_invariant(self);
        }
        (self.0 / 10) as u8
    }

    /// Two radii that hold the same number of meters are the same value.
    pub proof fn lemma_injective(a: OperatingAreaRadius, b: OperatingAreaRadius)
        ensures
            a.spec_radius() == b.spec_radius() ==> a == b,
    {
    }
}

} // verus!
