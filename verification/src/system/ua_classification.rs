//! Aircraft classification codecs.

use vstd::prelude::*;

verus! {

use crate::error::Error;

/// Classification of the aircraft.
///
/// The wire format is one byte: the high nibble selects the classification
/// and, when it selects [`UAClassification::Open`], the low nibble carries
/// the encoded [`OpenClassification`]; otherwise the low nibble is unused.
#[derive(Clone, Copy, PartialEq, Eq, Structural, Debug)]
pub enum UAClassification {
    /// Undefined classification.
    Undefined,
    /// Open classification, with its class in the low nibble.
    Open(OpenClassification),
    /// Specific classification.
    Specific,
    /// Certified classification.
    Certified,
    /// Reserved.
    Reserved,
}

impl UAClassification {
    /// What decoding a raw byte yields: the high nibble selects the
    /// classification (4 through 15 are reserved); for the open
    /// classification the low nibble carries the class.  No code is
    /// rejected.
    pub open spec fn spec_decode(raw: u8) -> UAClassification {
        let high = raw / 16;
        if high == 0 {
            UAClassification::Undefined
        } else if high == 1 {
            UAClassification::Open(OpenClassification::spec_decode_nibble(raw % 16))
        } else if high == 2 {
            UAClassification::Specific
        } else if high == 3 {
            UAClassification::Certified
        } else {
            UAClassification::Reserved
        }
    }

    /// What encoding yields: the classification code in the high nibble
    /// and, for the open classification, its class in the low nibble.
    pub open spec fn spec_encode(self) -> u8 {
        match self {
            UAClassification::Undefined => 0u8,
            UAClassification::Open(open) => (16 + open.spec_encode()) as u8,
            UAClassification::Specific => 32u8,
            UAClassification::Certified => 48u8,
            UAClassification::Reserved => 64u8,
        }
    }

    /// Decodes a raw byte; never fails.
    pub fn decode(raw: u8) -> (r: UAClassification)
        ensures
            r == UAClassification::spec_decode(raw),
    {
        let high: u8 = raw / 16;
        match high {
            0 => UAClassification::Undefined,
            1 => UAClassification::Open(OpenClassification::decode_nibble(raw % 16)),
            2 => UAClassification::Specific,
            3 => UAClassification::Certified,
            _ => UAClassification::Reserved,
        }
    }

    /// Encodes into a raw byte.
    pub fn encode(&self) -> (r: u8)
        ensures
            r == self.spec_encode(),
    {
        match self {
            UAClassification::Undefined => 0,
            UAClassification::Open(open) => 16 + open.encode(),
            UAClassification::Specific => 32,
            UAClassification::Certified => 48,
            UAClassification::Reserved => 64,
        }
    }

    /// Round trip: every variant survives an encode followed by a decode.
    pub proof fn lemma_round_trip(v: UAClassification)
        ensures
            UAClassification::spec_decode(v.spec_encode()) == v,
    {
        if let UAClassification::Open(open) = v {
            OpenClassification::lemma_round_trip(open, 0);
        }
    }
}

/// Open classification: a generic class system which can also be converted
/// to region-specific classifications.
///
/// The wire format is a nibble: code 0 is undefined, codes 1 through 7 are
/// the classes 0 through 6, and codes 8 through 15 are reserved.
#[derive(Clone, Copy, PartialEq, Eq, Structural, Debug)]
pub enum OpenClassification {
    /// Undefined open classification.
    Undefined,
    /// Class 0.
    Class0,
    /// Class 1.
    Class1,
    /// Class 2.
    Class2,
    /// Class 3.
    Class3,
    /// Class 4.
    Class4,
    /// Class 5.
    Class5,
    /// Class 6.
    Class6,
    /// Reserved.
    Reserved,
}

impl OpenClassification {
    /// What decoding yields for a nibble: code 0 is undefined, 1 through 7
    /// are the classes, 8 through 15 reserved.
    pub open spec fn spec_decode_nibble(raw: u8) -> OpenClassification {
        if raw == 0 {
            OpenClassification::Undefined
        } else if raw == 1 {
            OpenClassification::Class0
        } else if raw == 2 {
            OpenClassification::Class1
        } else if raw == 3 {
            OpenClassification::Class2
        } else if raw == 4 {
            OpenClassification::Class3
        } else if raw == 5 {
            OpenClassification::Class4
        } else if raw == 6 {
            OpenClassification::Class5
        } else if raw == 7 {
            OpenClassification::Class6
        } else {
            OpenClassification::Reserved
        }
    }

    /// What decoding a full byte yields: as for a nibble, but a code of 16
    /// or more is rejected.
    pub open spec fn spec_decode(raw: u8) -> Result<OpenClassification, Error> {
        if raw >= 16 {
            Err(Error::InvalidInteger)
        } else {
            Ok(Self::spec_decode_nibble(raw))
        }
    }

    /// What encoding yields: the named code, or the lower bound of the
    /// reserved band.
    pub open spec fn spec_encode(self) -> u8 {
        match self {
            OpenClassification::Undefined => 0u8,
            OpenClassification::Class0 => 1u8,
            OpenClassification::Class1 => 2u8,
            OpenClassification::Class2 => 3u8,
            OpenClassification::Class3 => 4u8,
            OpenClassification::Class4 => 5u8,
            OpenClassification::Class5 => 6u8,
            OpenClassification::Class6 => 7u8,
            OpenClassification::Reserved => 8u8,
        }
    }

    /// Decodes a nibble; never fails for values below 16.
    pub fn decode_nibble(raw: u8) -> (r: OpenClassification)
        requires
            raw < 16,
        ensures
            r == OpenClassification::spec_decode_nibble(raw),
    {
        match raw {
            0 => OpenClassification::Undefined,
            1 => OpenClassification::Class0,
            2 => OpenClassification::Class1,
            3 => OpenClassification::Class2,
            4 => OpenClassification::Class3,
            5 => OpenClassification::Class4,
            6 => OpenClassification::Class5,
            7 => OpenClassification::Class6,
            _ => OpenClassification::Reserved,
        }
    }

    /// Decodes a raw byte; rejects anything at or above 16 with
    /// [`Error::InvalidInteger`].
    pub fn decode(raw: u8) -> (r: Result<OpenClassification, Error>)
        ensures
            r == OpenClassification::spec_decode(raw),
    {
        if raw >= 16 {
            Err(Error::InvalidInteger)
        } else {
            Ok(Self::decode_nibble(raw))
        }
    }

    /// Encodes into a raw byte.
    pub fn encode(&self) -> (r: u8)
        ensures
            r == self.spec_encode(),
    {
        match self {
            OpenClassification::Undefined => 0,
            OpenClassification::Class0 => 1,
            OpenClassification::Class1 => 2,
            OpenClassification::Class2 => 3,
            OpenClassification::Class3 => 4,
            OpenClassification::Class4 => 5,
            OpenClassification::Class5 => 6,
            OpenClassification::Class6 => 7,
            OpenClassification::Reserved => 8,
        }
    }

    /// Round trip: every variant survives an encode followed by a decode,
    /// and every nibble through the reserved lower bound survives a decode
    /// followed by an encode.
    pub proof fn lemma_round_trip(v: OpenClassification, raw: u8)
        ensures
            OpenClassification::spec_decode_nibble(v.spec_encode()) == v,
            raw <= 8 ==> OpenClassification::spec_decode_nibble(raw).spec_encode() == raw,
    {
    }

    /// Threshold rule: every nibble at or above 8 decodes to
    /// [`OpenClassification::Reserved`].
    pub proof fn lemma_threshold(raw: u8)
        ensures
            8 <= raw < 16 ==> OpenClassification::spec_decode_nibble(raw)
                == OpenClassification::Reserved,
    {
    }
}

} // verus!
