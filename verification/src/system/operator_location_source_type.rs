//! Operator location source type codec.

use vstd::prelude::*;

verus! {

use crate::error::Error;

/// Kind of operator location that is transmitted: the take-off location of
/// the aircraft, or a separate location that is fixed or dynamic.
#[derive(Clone, Copy, PartialEq, Eq, Structural, Debug)]
pub enum OperatorLocationSourceType {
    /// Take-off location.
    TakeOff,
    /// Dynamic location.
    Dynamic,
    /// Fixed location.
    Fixed,
}

impl OperatorLocationSourceType {
    /// What decoding a raw byte yields: the named code, or a rejection for
    /// anything above 2.
    pub open spec fn spec_decode(raw: u8) -> Result<OperatorLocationSourceType, Error> {
        if raw == 0 {
            Ok(OperatorLocationSourceType::TakeOff)
        } else if raw == 1 {
            Ok(OperatorLocationSourceType::Dynamic)
        } else if raw == 2 {
            Ok(OperatorLocationSourceType::Fixed)
        } else {
            Err(Error::InvalidInteger)
        }
    }

    /// What encoding yields: the named code of the variant.
    pub open spec fn spec_encode(self) -> u8 {
        match self {
            OperatorLocationSourceType::TakeOff => 0u8,
            OperatorLocationSourceType::Dynamic => 1u8,
            OperatorLocationSourceType::Fixed => 2u8,
        }
    }

    /// Decodes a raw byte; rejects anything above 2 with
    /// [`Error::InvalidInteger`].
    pub fn decode(raw: u8) -> (r: Result<OperatorLocationSourceType, Error>)
        ensures
            r == OperatorLocationSourceType::spec_decode(raw),
    {
        match raw {
            0 => Ok(OperatorLocationSourceType::TakeOff),
            1 => Ok(OperatorLocationSourceType::Dynamic),
            2 => Ok(OperatorLocationSourceType::Fixed),
            _ => Err(Error::InvalidInteger),
        }
    }

    /// Encodes into a raw byte.
    pub fn encode(&self) -> (r: u8)
        ensures
            r == self.spec_encode(),
    {
        match self {
            OperatorLocationSourceType::TakeOff => 0,
            OperatorLocationSourceType::Dynamic => 1,
            OperatorLocationSourceType::Fixed => 2,
        }
    }

    /// Round trip: every variant survives an encode followed by a decode,
    /// and every raw code through 2 survives a decode followed by an
    /// encode.
    pub proof fn lemma_round_trip(v: OperatorLocationSourceType, raw: u8)
        ensures
            OperatorLocationSourceType::spec_decode(v.spec_encode()) == Ok::<
                OperatorLocationSourceType,
                Error,
            >(v),
            raw <= 2 ==> (match OperatorLocationSourceType::spec_decode(raw) {
                Ok(t) => t.spec_encode() == raw,
                Err(_) => false,
            }),
    {
    }
}

} // verus!
