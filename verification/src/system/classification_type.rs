//! Classification type codec.

use vstd::prelude::*;

verus! {

use crate::error::Error;

/// Classification scheme in force for a given region.
///
/// The wire format is a two-bit field widened to three legal bits: codes 0
/// and 1 are the named schemes, 2 through 7 are reserved, and anything above
/// 7 is rejected.
#[derive(Clone, Copy, PartialEq, Eq, Structural, Debug)]
pub enum ClassificationType {
    /// Undeclared.
    Undeclared,
    /// European Union-specific classification.
    EuropeanUnion,
    /// Reserved.
    Reserved,
}

impl ClassificationType {
    /// Smallest reserved code.
    pub const RESERVED_THRESHOLD: u8 = 2;

    /// Largest legal raw code.
    pub const MAX: u8 = 7;

    /// What decoding a raw byte yields: codes above the maximum are
    /// rejected, codes at or above the reserved threshold map to reserved,
    /// the rest to their named scheme.
    pub open spec fn spec_decode(raw: u8) -> Result<ClassificationType, Error> {
        if raw > 7 {
            Err(Error::InvalidInteger)
        } else if raw == 0 {
            Ok(ClassificationType::Undeclared)
        } else if raw == 1 {
            Ok(ClassificationType::EuropeanUnion)
        } else {
            Ok(ClassificationType::Reserved)
        }
    }

    /// What encoding yields: the named code, or the reserved threshold for
    /// the reserved variant.
    pub open spec fn spec_encode(self) -> u8 {
        match self {
            ClassificationType::Undeclared => 0u8,
            ClassificationType::EuropeanUnion => 1u8,
            ClassificationType::Reserved => 2u8,
        }
    }

    /// Decodes a raw byte; rejects anything above the maximum with
    /// [`Error::InvalidInteger`].
    pub fn decode(raw: u8) -> (r: Result<ClassificationType, Error>)
        ensures
            r == ClassificationType::spec_decode(raw),
    {
        if raw > 7 {
            return Err(Error::InvalidInteger);
        }
        match raw {
            0 => Ok(ClassificationType::Undeclared),
            1 => Ok(ClassificationType::EuropeanUnion),
            _ => Ok(ClassificationType::Reserved),
        }
    }

    /// Encodes into a raw byte.
    pub fn encode(&self) -> (r: u8)
        ensures
            r == self.spec_encode(),
    {
        match self {
            ClassificationType::Undeclared => 0,
            ClassificationType::EuropeanUnion => 1,
            ClassificationType::Reserved => 2,
        }
    }

    /// Round trip: every variant survives an encode followed by a decode.
    pub proof fn lemma_round_trip(v: ClassificationType)
        ensures
            ClassificationType::spec_decode(v.spec_encode()) == Ok::<ClassificationType, Error>(v),
    {
    }

    /// Threshold rule: every raw code from the reserved threshold through
    /// the maximum decodes to [`ClassificationType::Reserved`].
    pub proof fn lemma_threshold(raw: u8)
        ensures
            2 <= raw <= 7 ==> ClassificationType::spec_decode(raw) == Ok::<
                ClassificationType,
                Error,
            >(ClassificationType::Reserved),
    {
    }
}

} // verus!
