//! Operator identifier type codec.

use vstd::prelude::*;

verus! {

/// Type of operator identifier; generally the issued operator ID itself.
///
/// The wire format is a byte: code 0 is the operator ID, codes 1 through 200
/// are reserved, and 201 through 255 are available for private use.
#[derive(Clone, Copy, PartialEq, Eq, Structural, Debug)]
pub enum OperatorIDType {
    /// Operator identifier issued by a Civil Aviation Authority; the most
    /// common option.
    OperatorID,
    /// Reserved.
    Reserved,
    /// Available for private use.
    PrivateUse,
}

impl OperatorIDType {
    /// Smallest reserved code; the reserved band runs up to the private-use
    /// threshold.
    pub const RESERVED_THRESHOLD: u8 = 1;

    /// Smallest code available for private use.
    pub const PRIVATE_USE_THRESHOLD: u8 = 201;

    /// What decoding a raw byte yields: 0 maps to the operator ID, codes
    /// below the private-use threshold to reserved, the rest to private
    /// use.  No code is rejected.
    pub open spec fn spec_decode(raw: u8) -> OperatorIDType {
        if raw == 0 {
            OperatorIDType::OperatorID
        } else if raw < 201 {
            OperatorIDType::Reserved
        } else {
            OperatorIDType::PrivateUse
        }
    }

    /// What encoding yields: the named code, or the lower bound of the band
    /// the variant stands for.
    pub open spec fn spec_encode(self) -> u8 {
        match self {
            OperatorIDType::OperatorID => 0u8,
            OperatorIDType::Reserved => 1u8,
            OperatorIDType::PrivateUse => 201u8,
        }
    }

    /// Decodes a raw byte; never fails.
    pub fn decode(raw: u8) -> (r: OperatorIDType)
        ensures
            r == OperatorIDType::spec_decode(raw),
    {
        if raw == 0 {
            OperatorIDType::OperatorID
        } else if raw < 201 {
            OperatorIDType::Reserved
        } else {
            OperatorIDType::PrivateUse
        }
    }

    /// Encodes into a raw byte.
    pub fn encode(&self) -> (r: u8)
        ensures
            r == self.spec_encode(),
    {
        match self {
            OperatorIDType::OperatorID => 0,
            OperatorIDType::Reserved => 1,
            OperatorIDType::PrivateUse => 201,
        }
    }

    /// Round trip: every variant survives an encode followed by a decode.
    pub proof fn lemma_round_trip(v: OperatorIDType)
        ensures
            OperatorIDType::spec_decode(v.spec_encode()) == v,
    {
    }

    /// Threshold rule: every raw code in the reserved band decodes to
    /// [`OperatorIDType::Reserved`], and every code at or above the
    /// private-use threshold to [`OperatorIDType::PrivateUse`].
    pub proof fn lemma_threshold(raw: u8)
        ensures
            1 <= raw < 201 ==> OperatorIDType::spec_decode(raw) == OperatorIDType::Reserved,
            raw >= 201 ==> OperatorIDType::spec_decode(raw) == OperatorIDType::PrivateUse,
    {
    }
}

} // verus!
