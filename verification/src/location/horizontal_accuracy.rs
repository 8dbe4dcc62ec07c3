//! Horizontal accuracy codec.

use vstd::prelude::*;

verus! {

/// Accuracy on the horizontal axis, based on the Navigation Accuracy
/// Category for Position (NACp) enumeration of the Automatic Dependent
/// Surveillance-Broadcast (ADS-B) specification.
///
/// The wire format is a nibble: the code 0 means the accuracy is unknown or
/// no better than 18.52 km, codes 1 through 12 select decreasing bounds from
/// a fixed table, and codes 13 through 15 are reserved.
#[derive(Clone, Copy, PartialEq, Eq, Structural, Debug)]
pub enum HorizontalAccuracy {
    /// Reserved.
    Reserved,
    /// Unknown value (indicated by 0).
    Unknown,
    /// Known accuracy code.
    Known(u8),
}

impl HorizontalAccuracy {
    /// Raw code that stands for [`HorizontalAccuracy::Unknown`].
    pub const UNKNOWN_CODE: u8 = 0;

    /// Smallest reserved code.
    pub const RESERVED_THRESHOLD: u8 = 13;

    /// Largest bound of the table, in decimeters (18,521 meters): reported
    /// for the unknown and reserved codes.
    pub const MAX: u32 = 185_210;

    /// What decoding a raw byte yields: codes at or above the reserved
    /// threshold map to reserved, 0 to unknown, anything else to itself.
    pub open spec fn spec_decode(raw: u8) -> HorizontalAccuracy {
        if raw >= 13 {
            HorizontalAccuracy::Reserved
        } else if raw == 0 {
            HorizontalAccuracy::Unknown
        } else {
            HorizontalAccuracy::Known(raw)
        }
    }

    /// What encoding yields: the reserved variant encodes as the reserved
    /// threshold, the unknown one as 0, and a known code as itself unless it
    /// lies above the threshold, in which case it is clamped down to it.
    pub open spec fn spec_encode(self) -> u8 {
        match self {
            HorizontalAccuracy::Reserved => 13u8,
            HorizontalAccuracy::Unknown => 0u8,
            HorizontalAccuracy::Known(n) => if n > 13 {
                13u8
            } else {
                n
            },
        }
    }

    /// The accuracy bound a code stands for, in decimeters.
    pub open spec fn spec_accuracy_decimeters(self) -> u32 {
        match self {
            HorizontalAccuracy::Unknown | HorizontalAccuracy::Reserved => 185_210u32,
            HorizontalAccuracy::Known(n) => if n == 2 {
                74_080u32
            } else if n == 3 {
                37_040u32
            } else if n == 4 {
                18_520u32
            } else if n == 5 {
                9_260u32
            } else if n == 6 {
                5_556u32
            } else if n == 7 {
                1_852u32
            } else if n == 8 {
                926u32
            } else if n == 9 {
                300u32
            } else if n == 10 {
                100u32
            } else if n == 11 {
                30u32
            } else if n == 12 {
                10u32
            } else {
                185_210u32
            },
        }
    }

    /// Decodes a raw byte.
    pub fn decode(raw: u8) -> (r: HorizontalAccuracy)
        ensures
            r == HorizontalAccuracy::spec_decode(raw),
    {
        if raw >= 13 {
            HorizontalAccuracy::Reserved
        } else if raw == 0 {
            HorizontalAccuracy::Unknown
        } else {
            HorizontalAccuracy::Known(raw)
        }
    }

    /// Encodes into a raw byte.
    pub fn encode(&self) -> (r: u8)
        ensures
            r == self.spec_encode(),
    {
        match self {
            HorizontalAccuracy::Reserved => 13,
            HorizontalAccuracy::Unknown => 0,
            HorizontalAccuracy::Known(n) => {
                if *n > 13 {
                    13
                } else {
                    *n
                }
            },
        }
    }

    /// Returns the accuracy bound in decimeters.
    ///
    /// A value of 185,210 means the accuracy is unknown or no better than
    /// 18.52 km; every other value means the accuracy is better than the
    /// returned bound.  A manually constructed code outside the decodable
    /// range reports the largest bound rather than panicking.
    pub fn accuracy_decimeters(&self) -> (r: u32)
        ensures
            r == self.spec_accuracy_decimeters(),
    {
        match self {
            HorizontalAccuracy::Unknown | HorizontalAccuracy::Reserved => 185_210,
            HorizontalAccuracy::Known(n) => {
                if *n == 2 {
                    74_080
                } else if *n == 3 {
                    37_040
                } else if *n == 4 {
                    18_520
                } else if *n == 5 {
                    9_260
                } else if *n == 6 {
                    5_556
                } else if *n == 7 {
                    1_852
                } else if *n == 8 {
                    926
                } else if *n == 9 {
                    300
                } else if *n == 10 {
                    100
                } else if *n == 11 {
                    30
                } else if *n == 12 {
                    10
                } else {
                    185_210
                }
            },
        }
    }

    /// Round trip in both directions: every known code from 1 below the
    /// reserved threshold survives an encode followed by a decode, and
    /// every raw code at most the threshold survives a decode followed by
    /// an encode.
    pub proof fn lemma_round_trip(n: u8, raw: u8)
        ensures
            1 <= n < 13 ==> HorizontalAccuracy::spec_decode(
                HorizontalAccuracy::Known(n).spec_encode(),
            ) == HorizontalAccuracy::Known(n),
            raw <= 13 ==> HorizontalAccuracy::spec_decode(raw).spec_encode() == raw,
    {
    }

    /// Threshold rule: every raw code at or above the reserved threshold
    /// decodes to [`HorizontalAccuracy::Reserved`].
    pub proof fn lemma_threshold(raw: u8)
        ensures
            raw >= 13 ==> HorizontalAccuracy::spec_decode(raw) == HorizontalAccuracy::Reserved,
    {
    }
}

} // verus!
