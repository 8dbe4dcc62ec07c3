//! Speed accuracy codec.

use vstd::prelude::*;

verus! {

/// Accuracy of the ground speed, based on the speed-accuracy enumeration of
/// the Automatic Dependent Surveillance-Broadcast (ADS-B) specification.
///
/// The wire format is a nibble: the code 0 means the accuracy is unknown or
/// no better than 10 m/s, codes 1 through 4 select decreasing bounds, and
/// codes 5 through 15 are reserved.
#[derive(Clone, Copy, PartialEq, Eq, Structural, Debug)]
pub enum SpeedAccuracy {
    /// Reserved.
    Reserved,
    /// Unknown value (indicated by 0).
    Unknown,
    /// Known accuracy code.
    Known(u8),
}

impl SpeedAccuracy {
    /// Raw code that stands for [`SpeedAccuracy::Unknown`].
    pub const UNKNOWN_CODE: u8 = 0;

    /// Smallest reserved code.
    pub const RESERVED_THRESHOLD: u8 = 5;

    /// What decoding a raw byte yields: codes at or above the reserved
    /// threshold map to reserved, 0 to unknown, anything else to itself.
    pub open spec fn spec_decode(raw: u8) -> SpeedAccuracy {
        if raw >= 5 {
            SpeedAccuracy::Reserved
        } else if raw == 0 {
            SpeedAccuracy::Unknown
        } else {
            SpeedAccuracy::Known(raw)
        }
    }

    /// What encoding yields: the reserved variant encodes as the reserved
    /// threshold, the unknown one as 0, and a known code as itself clamped
    /// up to the threshold.
    pub open spec fn spec_encode(self) -> u8 {
        match self {
            SpeedAccuracy::Reserved => 5u8,
            SpeedAccuracy::Unknown => 0u8,
            SpeedAccuracy::Known(n) => if n > 5 {
                5u8
            } else {
                n
            },
        }
    }

    /// Decodes a raw byte.
    pub fn decode(raw: u8) -> (r: SpeedAccuracy)
        ensures
            r == SpeedAccuracy::spec_decode(raw),
    {
        if raw >= 5 {
            SpeedAccuracy::Reserved
        } else if raw == 0 {
            SpeedAccuracy::Unknown
        } else {
            SpeedAccuracy::Known(raw)
        }
    }

    /// Encodes into a raw byte.
    pub fn encode(&self) -> (r: u8)
        ensures
            r == self.spec_encode(),
    {
        match self {
            SpeedAccuracy::Reserved => 5,
            SpeedAccuracy::Unknown => 0,
            SpeedAccuracy::Known(n) => {
                if *n > 5 {
                    5
                } else {
                    *n
                }
            },
        }
    }

    /// Round trip in both directions: every known code from 1 below the
    /// reserved threshold survives an encode followed by a decode, and
    /// every raw code at most the threshold survives a decode followed by
    /// an encode.
    pub proof fn lemma_round_trip(n: u8, raw: u8)
        ensures
            1 <= n < 5 ==> SpeedAccuracy::spec_decode(SpeedAccuracy::Known(n).spec_encode())
                == SpeedAccuracy::Known(n),
            raw <= 5 ==> SpeedAccuracy::spec_decode(raw).spec_encode() == raw,
    {
    }

    /// Threshold rule: every raw code at or above the reserved threshold
    /// decodes to [`SpeedAccuracy::Reserved`].
    pub proof fn lemma_threshold(raw: u8)
        ensures
            raw >= 5 ==> SpeedAccuracy::spec_decode(raw) == SpeedAccuracy::Reserved,
    {
    }
}

} // verus!
