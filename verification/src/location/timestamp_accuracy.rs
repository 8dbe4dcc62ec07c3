//! Timestamp accuracy codec.

use vstd::prelude::*;

verus! {

/// Accuracy of the location timestamp, in tenths of a second.
///
/// One unit is 0.1 second; the legal readings run from 0.1 s through 1.5 s
/// (1 through 15 units).  The wire format is the low nibble of a byte; the
/// code 0 stands for an unknown accuracy.
#[derive(Clone, Copy, PartialEq, Eq, Structural, Debug)]
pub enum TimestampAccuracy {
    /// Unknown value (indicated by 0).
    Unknown,
    /// Known value, in tenths of a second.
    Known(u8),
}

impl TimestampAccuracy {
    /// Raw code that stands for [`TimestampAccuracy::Unknown`].
    pub const UNKNOWN_CODE: u8 = 0;

    /// Largest legal accuracy, in tenths of a second (1.5 s).
    pub const MAX: u8 = 15;

    /// What decoding a raw byte yields: the byte is clamped into the nibble
    /// range first; 0 maps to unknown and anything else to itself.
    pub open spec fn spec_decode(raw: u8) -> TimestampAccuracy {
        let c = if raw > 15 {
            15u8
        } else {
            raw
        };
        if c == 0 {
            TimestampAccuracy::Unknown
        } else {
            TimestampAccuracy::Known(c)
        }
    }

    /// The accuracy reported for a value: known accuracies are clamped into
    /// the legal range, the unknown value reports zero.
    pub open spec fn spec_accuracy(self) -> u8 {
        match self {
            TimestampAccuracy::Unknown => 0u8,
            TimestampAccuracy::Known(n) => if n > 15 {
                15u8
            } else {
                n
            },
        }
    }

    /// What encoding yields: the reported accuracy itself.
    pub open spec fn spec_encode(self) -> u8 {
        self.spec_accuracy()
    }

    /// Decodes a raw byte.
    pub fn decode(raw: u8) -> (r: TimestampAccuracy)
        ensures
            r == TimestampAccuracy::spec_decode(raw),
    {
        let c: u8 = if raw > 15 {
            15
        } else {
            raw
        };
        if c == 0 {
            TimestampAccuracy::Unknown
        } else {
            TimestampAccuracy::Known(c)
        }
    }

    /// Returns the accuracy in tenths of a second, clamped into the legal
    /// range; the unknown value reports zero.
    pub fn accuracy(&self) -> (r: u8)
        ensures
            r == self.spec_accuracy(),
    {
        match self {
            TimestampAccuracy::Unknown => 0,
            TimestampAccuracy::Known(n) => {
                if *n > 15 {
                    15
                } else {
                    *n
                }
            },
        }
    }

    /// Encodes into a raw byte.
    pub fn encode(&self) -> (r: u8)
        ensures
            r == self.spec_encode(),
    {
        self.accuracy()
    }

    /// Round trip in both directions: every known accuracy from 1 through
    /// 15 survives an encode followed by a decode, and every raw nibble
    /// survives a decode followed by an encode.
    ///
    /// A known accuracy of 0 does not round-trip: its raw code is reserved
    /// for the unknown value.
    pub proof fn lemma_round_trip(n: u8, raw: u8)
        ensures
            1 <= n <= 15 ==> TimestampAccuracy::spec_decode(
                TimestampAccuracy::Known(n).spec_encode(),
            ) == TimestampAccuracy::Known(n),
            raw <= 15 ==> TimestampAccuracy::spec_decode(raw).spec_encode() == raw,
    {
    }

    /// Encoding clamps: a known accuracy above the legal range encodes to
    /// the same raw byte as the maximum.
    pub proof fn lemma_encode_clamps(n: u8)
        ensures
            n > 15 ==> TimestampAccuracy::Known(n).spec_encode() == TimestampAccuracy::Known(
                15u8,
            ).spec_encode(),
    {
    }
}

} // verus!
