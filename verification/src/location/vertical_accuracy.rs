//! Vertical accuracy codec.

use vstd::prelude::*;

verus! {

/// Accuracy on the vertical axis, based on the Geometric Vertical Accuracy
/// (GVA) enumeration of the Automatic Dependent Surveillance-Broadcast
/// (ADS-B) specification.
///
/// The wire format is a nibble: the code 0 means the accuracy is unknown or
/// no better than 150 m, codes 1 through 6 select decreasing bounds from a
/// fixed table, and codes 7 through 15 are reserved.
#[derive(Clone, Copy, PartialEq, Eq, Structural, Debug)]
pub enum VerticalAccuracy {
    /// Reserved.
    Reserved,
    /// Unknown value (indicated by 0).
    Unknown,
    /// Known accuracy code.
    Known(u8),
}

impl VerticalAccuracy {
    /// Raw code that stands for [`VerticalAccuracy::Unknown`].
    pub const UNKNOWN_CODE: u8 = 0;

    /// Smallest reserved code.
    pub const RESERVED_THRESHOLD: u8 = 7;

    /// Largest bound of the table, in meters: reported for the unknown and
    /// reserved codes.
    pub const MAX: u16 = 151;

    /// What decoding a raw byte yields: codes at or above the reserved
    /// threshold map to reserved, 0 to unknown, anything else to itself.
    pub open spec fn spec_decode(raw: u8) -> VerticalAccuracy {
        if raw >= 7 {
            VerticalAccuracy::Reserved
        } else if raw == 0 {
            VerticalAccuracy::Unknown
        } else {
            VerticalAccuracy::Known(raw)
        }
    }

    /// What encoding yields: the reserved variant encodes as the reserved
    /// threshold, the unknown one as 0, and a known code as itself clamped
    /// up to the threshold.
    pub open spec fn spec_encode(self) -> u8 {
        match self {
            VerticalAccuracy::Reserved => 7u8,
            VerticalAccuracy::Unknown => 0u8,
            VerticalAccuracy::Known(n) => if n > 7 {
                7u8
            } else {
                n
            },
        }
    }

    /// The accuracy bound a code stands for, in meters.
    pub open spec fn spec_accuracy(self) -> u16 {
        match self {
            VerticalAccuracy::Unknown | VerticalAccuracy::Reserved => 151u16,
            VerticalAccuracy::Known(n) => if n == 1 {
                150u16
            } else if n == 2 {
                45u16
            } else if n == 3 {
                25u16
            } else if n == 4 {
                10u16
            } else if n == 5 {
                3u16
            } else if n == 6 {
                1u16
            } else {
                151u16
            },
        }
    }

    /// Decodes a raw byte.
    pub fn decode(raw: u8) -> (r: VerticalAccuracy)
        ensures
            r == VerticalAccuracy::spec_decode(raw),
    {
        if raw >= 7 {
            VerticalAccuracy::Reserved
        } else if raw == 0 {
            VerticalAccuracy::Unknown
        } else {
            VerticalAccuracy::Known(raw)
        }
    }

    /// Encodes into a raw byte.
    pub fn encode(&self) -> (r: u8)
        ensures
            r == self.spec_encode(),
    {
        match self {
            VerticalAccuracy::Reserved => 7,
            VerticalAccuracy::Unknown => 0,
            VerticalAccuracy::Known(n) => {
                if *n > 7 {
                    7
                } else {
                    *n
                }
            },
        }
    }

    /// Returns the raw enumerated code: a known code itself, 0 for the
    /// unknown and reserved values.
    pub fn code(&self) -> (r: u8)
        ensures
            r == (match *self {
                VerticalAccuracy::Known(n) => n,
                _ => 0u8,
            }),
    {
        match self {
            VerticalAccuracy::Known(n) => *n,
            VerticalAccuracy::Unknown | VerticalAccuracy::Reserved => 0,
        }
    }

    /// Returns the accuracy bound in meters.
    ///
    /// A value of 151 means the accuracy is unknown or no better than
    /// 150 m; every other value means the accuracy is better than the
    /// returned bound.  A manually constructed code outside the decodable
    /// range reports the largest bound rather than panicking.
    pub fn accuracy(&self) -> (r: u16)
        ensures
            r == self.spec_accuracy(),
    {
        match self {
            VerticalAccuracy::Unknown | VerticalAccuracy::Reserved => 151,
            VerticalAccuracy::Known(n) => {
                if *n == 1 {
                    150
                } else if *n == 2 {
                    45
                } else if *n == 3 {
                    25
                } else if *n == 4 {
                    10
                } else if *n == 5 {
                    3
                } else if *n == 6 {
                    1
                } else {
                    151
                }
            },
        }
    }

    /// Round trip in both directions: every known code from 1 below the
    /// reserved threshold survives an encode followed by a decode, and
    /// every raw code at most the threshold survives a decode followed by
    /// an encode.
    pub proof fn lemma_round_trip(n: u8, raw: u8)
        ensures
            1 <= n < 7 ==> VerticalAccuracy::spec_decode(VerticalAccuracy::Known(n).spec_encode())
                == VerticalAccuracy::Known(n),
            raw <= 7 ==> VerticalAccuracy::spec_decode(raw).spec_encode() == raw,
    {
    }

    /// Threshold rule: every raw code at or above the reserved threshold
    /// decodes to [`VerticalAccuracy::Reserved`].
    pub proof fn lemma_threshold(raw: u8)
        ensures
            raw >= 7 ==> VerticalAccuracy::spec_decode(raw) == VerticalAccuracy::Reserved,
    {
    }
}

} // verus!
