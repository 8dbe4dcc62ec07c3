//! Height type codec.

use vstd::prelude::*;

verus! {

use crate::error::Error;

/// Whether the height reading is relative to the take-off altitude or above
/// ground level (AGL).
#[derive(Clone, Copy, PartialEq, Eq, Structural, Debug)]
pub enum HeightType {
    /// Height relative to take-off altitude.
    TakeOff,
    /// Above ground level.
    AGL,
}

impl HeightType {
    /// What decoding a raw bit yields: 0 selects take-off, 1 above ground
    /// level, anything else is rejected.
    pub open spec fn spec_decode(raw: u8) -> Result<HeightType, Error> {
        if raw == 0 {
            Ok(HeightType::TakeOff)
        } else if raw == 1 {
            Ok(HeightType::AGL)
        } else {
            Err(Error::InvalidInteger)
        }
    }

    /// What encoding yields.
    pub open spec fn spec_encode(self) -> u8 {
        match self {
            HeightType::TakeOff => 0u8,
            HeightType::AGL => 1u8,
        }
    }

    /// Decodes a raw bit; rejects anything above 1 with
    /// [`Error::InvalidInteger`].
    pub fn decode(raw: u8) -> (r: Result<HeightType, Error>)
        ensures
            r == HeightType::spec_decode(raw),
    {
        match raw {
            0 => Ok(HeightType::TakeOff),
            1 => Ok(HeightType::AGL),
            _ => Err(Error::InvalidInteger),
        }
    }

    /// Encodes into a raw bit.
    pub fn encode(&self) -> (r: u8)
        ensures
            r == self.spec_encode(),
    {
        match self {
            HeightType::TakeOff => 0,
            HeightType::AGL => 1,
        }
    }

    /// Round trip in both directions: every variant survives an encode
    /// followed by a decode, and every raw bit survives a decode followed by
    /// an encode.
    pub proof fn lemma_round_trip(v: HeightType, raw: u8)
        ensures
            HeightType::spec_decode(v.spec_encode()) == Ok::<HeightType, Error>(v),
            raw <= 1 ==> (match HeightType::spec_decode(raw) {
                Ok(h) => h.spec_encode() == raw,
                Err(_) => false,
            }),
    {
    }
}

} // verus!
