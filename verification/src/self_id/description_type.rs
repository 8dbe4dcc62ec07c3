//! Description type codec.

use vstd::prelude::*;

verus! {

/// Type of the free-text description of a self-identification message.
///
/// The wire format is a byte: codes 0 through 2 are the named types, 3
/// through 200 are reserved, and 201 through 255 are available for private
/// use.
#[derive(Clone, Copy, PartialEq, Eq, Structural, Debug)]
pub enum DescriptionType {
    /// Free-text ASCII.
    Text,
    /// Emergency text.
    Emergency,
    /// Extended status.
    ExtendedStatus,
    /// Reserved.
    Reserved,
    /// Available for private use.
    PrivateUse,
}

impl DescriptionType {
    /// Smallest code available for private use.
    pub const PRIVATE_USE_THRESHOLD: u8 = 201;

    /// Smallest reserved code; the reserved band runs up to the private-use
    /// threshold.
    pub const RESERVED_THRESHOLD: u8 = 3;

    /// What decoding a raw byte yields: codes at or above the private-use
    /// threshold map to private use, at or above the reserved threshold to
    /// reserved, the rest to their named type.  No code is rejected.
    pub open spec fn spec_decode(raw: u8) -> DescriptionType {
        if raw >= 201 {
            DescriptionType::PrivateUse
        } else if raw >= 3 {
            DescriptionType::Reserved
        } else if raw == 0 {
            DescriptionType::Text
        } else if raw == 1 {
            DescriptionType::Emergency
        } else {
            DescriptionType::ExtendedStatus
        }
    }

    /// What encoding yields: the named code, or the lower bound of the band
    /// the variant stands for.
    pub open spec fn spec_encode(self) -> u8 {
        match self {
            DescriptionType::Text => 0u8,
            DescriptionType::Emergency => 1u8,
            DescriptionType::ExtendedStatus => 2u8,
            DescriptionType::Reserved => 3u8,
            DescriptionType::PrivateUse => 201u8,
        }
    }

    /// Decodes a raw byte; never fails.
    pub fn decode(raw: u8) -> (r: DescriptionType)
        ensures
            r == DescriptionType::spec_decode(raw),
    {
        if raw >= 201 {
            DescriptionType::PrivateUse
        } else if raw >= 3 {
            DescriptionType::Reserved
        } else if raw == 0 {
            DescriptionType::Text
        } else if raw == 1 {
            DescriptionType::Emergency
        } else {
            DescriptionType::ExtendedStatus
        }
    }

    /// Encodes into a raw byte.
    pub fn encode(&self) -> (r: u8)
        ensures
            r == self.spec_encode(),
    {
        match self {
            DescriptionType::Text => 0,
            DescriptionType::Emergency => 1,
            DescriptionType::ExtendedStatus => 2,
            DescriptionType::Reserved => 3,
            DescriptionType::PrivateUse => 201,
        }
    }

    /// Round trip: every variant survives an encode followed by a decode.
    pub proof fn lemma_round_trip(v: DescriptionType)
        ensures
            DescriptionType::spec_decode(v.spec_encode()) == v,
    {
    }

    /// Threshold rule: every raw code in the reserved band decodes to
    /// [`DescriptionType::Reserved`], and every code at or above the
    /// private-use threshold to [`DescriptionType::PrivateUse`].
    pub proof fn lemma_threshold(raw: u8)
        ensures
            3 <= raw < 201 ==> DescriptionType::spec_decode(raw) == DescriptionType::Reserved,
            raw >= 201 ==> DescriptionType::spec_decode(raw) == DescriptionType::PrivateUse,
    {
    }
}

} // verus!
