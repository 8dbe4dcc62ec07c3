//! Vertical speed codec.

use vstd::prelude::*;

verus! {

/// Vertical speed upward, in half-meter-per-second units.
///
/// One unit is 0.5 m/s, so a value of `v` units stands for `v / 2` m/s.  The
/// wire format is one byte read as a signed 8-bit number of units.  The
/// signed value 126 (63 m/s) stands for an unknown speed; every other value
/// is clamped into -62 through 62 m/s (-124 through 124 units).
#[derive(Clone, Copy, PartialEq, Eq, Structural, Debug)]
pub enum VerticalSpeed {
    /// Invalid value.
    ///
    /// The wire format never produces this on decode; it is reachable only
    /// by manual construction.
    Invalid,
    /// No value.
    NoValue,
    /// Unknown value (indicated by the signed raw value 126, i.e. 63 m/s).
    Unknown,
    /// Known value, in half-m/s units.
    Known(i32),
}

impl VerticalSpeed {
    /// Signed raw value that stands for [`VerticalSpeed::Unknown`].
    pub const UNKNOWN_CODE: i32 = 126;

    /// Largest magnitude of a known speed, in half-m/s units (62 m/s).
    pub const MAX: i32 = 124;

    /// The signed reading of a raw byte: two's complement.
    pub open spec fn spec_signed(raw: u8) -> int {
        if raw >= 128 {
            raw - 256
        } else {
            raw as int
        }
    }

    /// What decoding a raw byte yields: the signed value 126 maps to
    /// unknown, every other signed value is clamped into the legal range.
    pub open spec fn spec_decode(raw: u8) -> VerticalSpeed {
        let v = Self::spec_signed(raw);
        if v == 126 {
            VerticalSpeed::Unknown
        } else if v < -124 {
            VerticalSpeed::Known(-124i32)
        } else if v > 124 {
            VerticalSpeed::Known(124i32)
        } else {
            VerticalSpeed::Known(v as i32)
        }
    }

    /// The speed reported for a value: known speeds are clamped into the
    /// legal range, the unknown value reports its raw code, and the invalid
    /// and absent values report zero.
    pub open spec fn spec_vertical_speed(self) -> i32 {
        match self {
            VerticalSpeed::Invalid | VerticalSpeed::NoValue => 0,
            VerticalSpeed::Unknown => 126,
            VerticalSpeed::Known(n) => if n < -124 {
                -124i32
            } else if n > 124 {
                124i32
            } else {
                n
            },
        }
    }

    /// What encoding yields: the reported speed written back as a two's
    /// complement byte.
    pub open spec fn spec_encode(self) -> u8 {
        let v = self.spec_vertical_speed();
        if v < 0 {
            (v + 256) as u8
        } else {
            v as u8
        }
    }

    /// Decodes a raw byte.
    pub fn decode(raw: u8) -> (r: VerticalSpeed)
        ensures
            r == VerticalSpeed::spec_decode(raw),
    {
        let v: i32 = if raw >= 128 {
            raw as i32 - 256
        } else {
            raw as i32
        };
        if v == 126 {
            VerticalSpeed::Unknown
        } else if v < -124 {
            VerticalSpeed::Known(-124)
        } else if v > 124 {
            VerticalSpeed::Known(124)
        } else {
            VerticalSpeed::Known(v)
        }
    }

    /// Returns the speed in half-m/s units: known speeds clamped into the
    /// legal range, the unknown value as its raw code 126, and zero for the
    /// invalid and absent values.
    pub fn vertical_speed(&self) -> (r: i32)
        ensures
            r == self.spec_vertical_speed(),
    {
        match self {
            VerticalSpeed::Invalid | VerticalSpeed::NoValue => 0,
            VerticalSpeed::Unknown => 126,
            VerticalSpeed::Known(n) => {
                if *n < -124 {
                    -124
                } else if *n > 124 {
                    124
                } else {
                    *n
                }
            },
        }
    }

    /// Encodes into a raw byte.
    pub fn encode(&self) -> (r: u8)
        ensures
            r == self.spec_encode(),
    {
        let v: i32 = self.vertical_speed();
        if v < 0 {
            (v + 256) as u8
        } else {
            v as u8
        }
    }

    /// Round trip in both directions: every known speed in the legal range
    /// survives an encode followed by a decode, and every raw byte whose
    /// signed value is in the legal range, or is the unknown code, survives
    /// a decode followed by an encode.
    ///
    /// A raw byte whose signed value lies outside the legal range (125, 127,
    /// or below -124) is clamped on decode and so does not come back
    /// unchanged.
    pub proof fn lemma_round_trip(n: i32, raw: u8)
        ensures
            -124 <= n <= 124 ==> VerticalSpeed::spec_decode(
                VerticalSpeed::Known(n).spec_encode(),
            ) == VerticalSpeed::Known(n),
            -124 <= VerticalSpeed::spec_signed(raw) <= 124 || VerticalSpeed::spec_signed(raw)
                == 126 ==> VerticalSpeed::spec_decode(raw).spec_encode() == raw,
    {
    }

    /// Encoding clamps: an out-of-range known speed encodes to the same raw
    /// byte as the nearest legal one.
    pub proof fn lemma_encode_clamps(n: i32)
        ensures
            n > 124 ==> VerticalSpeed::Known(n).spec_encode() == VerticalSpeed::Known(
                124i32,
            ).spec_encode(),
            n < -124 ==> VerticalSpeed::Known(n).spec_encode() == VerticalSpeed::Known(
                -124i32,
            ).spec_encode(),
    {
    }
}

} // verus!
