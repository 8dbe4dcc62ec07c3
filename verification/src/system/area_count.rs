//! Operating area count.

use vstd::prelude::*;

verus! {

use crate::error::Error;

/// Number of aircraft in an area, group, or formation.
///
/// Possible values go up to 65,000 despite the maximum of the 16-bit wire
/// word being slightly larger.
#[derive(Clone, Copy, PartialEq, Eq, Structural, Debug)]
pub struct AreaCount(u16);

impl AreaCount {
    /// Largest legal count.
    pub const MAX: u16 = 65_000;

    /// Every count this type can hold is at most the maximum; the
    /// constructor establishes this.
    #[verifier::type_invariant]
    spec fn inv(self) -> bool {
        self.0 <= 65_000
    }

    /// The count a value holds.
    pub closed spec fn spec_count(self) -> u16 {
        self.0
    }

    /// Constructs a count from a raw 16-bit word; rejects anything above
    /// the maximum with [`Error::InvalidInteger`].
    pub fn try_new(raw: u16) -> (r: Result<AreaCount, Error>)
        ensures
            raw <= 65_000 ==> (r matches Ok(c) && c.spec_count() == raw),
            raw > 65_000 ==> r == Err::<AreaCount, Error>(Error::InvalidInteger),
    {
        if raw > 65_000 {
            Err(Error::InvalidInteger)
        } else {
            Ok(AreaCount(raw))
        }
    }

    /// Encodes into a raw 16-bit word: the count itself.
    pub fn encode(&self) -> (r: u16)
        ensures
            r == self.spec_count(),
    {
        self.0
    }

    /// Two counts that hold the same number are the same value.
    pub proof fn lemma_injective(a: AreaCount, b: AreaCount)
        ensures
            a.spec_count() == b.spec_count() ==> a == b,
    {
    }
}

} // verus!
