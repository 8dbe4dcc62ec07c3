//! Altitude codec.

use vstd::prelude::*;

verus! {

/// Altitude, in half-meter units.
///
/// One unit is 0.5 meter, so a value of `h` units stands for `h / 2` meters.
/// The wire format stores `h + 2000` in an unsigned 16-bit word, which places
/// the representable range at -1000 meters through 31767.5 meters with a
/// resolution of half a meter.
#[derive(Clone, Copy, PartialEq, Eq, Structural, Debug)]
pub enum Altitude {
    /// Invalid altitude value.
    Invalid,
    /// No value provided.
    NoValue,
    /// Unknown value (indicated by the raw code 0, i.e. -1000 meters).
    Unknown,
    /// Known value, in half-meter units.
    Known(i32),
}

impl Altitude {
    /// Raw code that stands for [`Altitude::Unknown`].
    pub const UNKNOWN_CODE: u16 = 0;

    /// Offset between the raw code and the value in half-meter units:
    /// `raw == half_meters + 2000`.
    pub const RAW_OFFSET: i32 = 2000;

    /// What decoding a raw 16-bit word yields: the raw unknown code maps to
    /// [`Altitude::Unknown`], every other word to the known altitude it
    /// stands for.
    pub open spec fn spec_decode(raw: u16) -> Altitude {
        if raw == 0 {
            Altitude::Unknown
        } else {
            Altitude::Known((raw - 2000) as i32)
        }
    }

    /// What encoding yields: a known altitude is clamped into the raw range,
    /// the unknown value maps to the raw unknown code, and the invalid and
    /// absent values map to the code for 0 meters.
    pub open spec fn spec_encode(self) -> u16 {
        match self {
            Altitude::Invalid | Altitude::NoValue => 2000,
            Altitude::Unknown => 0,
            Altitude::Known(h) => if h <= -2000 {
                0
            } else if h > 63535 {
                65535
            } else {
                (h + 2000) as u16
            },
        }
    }

    /// Decodes a raw 16-bit word.
    pub fn decode(raw: u16) -> (r: Altitude)
        ensures
            r == Altitude::spec_decode(raw),
    {
        if raw == 0 {
            Altitude::Unknown
        } else {
            Altitude::Known(raw as i32 - 2000)
        }
    }

    /// Encodes into a raw 16-bit word.
    pub fn encode(&self) -> (r: u16)
        ensures
            r == self.spec_encode(),
    {
        match self {
            Altitude::Invalid | Altitude::NoValue => 2000,
            Altitude::Unknown => 0,
            Altitude::Known(h) => {
                if *h <= -2000 {
                    0
                } else if *h > 63535 {
                    65535
                } else {
                    (*h + 2000) as u16
                }
            },
        }
    }

    /// Returns the altitude in half-meter units, or 0 for the variants that
    /// carry no value.
    pub fn altitude(&self) -> (r: i32)
        ensures
            r == (match *self {
                Altitude::Known(n) => n,
                _ => 0,
            }),
    {
        match self {
            Altitude::Known(n) => *n,
            _ => 0,
        }
    }

    /// Round trip in both directions: every known altitude in the decodable
    /// range survives an encode followed by a decode, and every raw word
    /// survives a decode followed by an encode.
    pub proof fn lemma_round_trip(h: i32, raw: u16)
        ensures
            -1999 <= h <= 63535 ==> Altitude::spec_decode(
                Altitude::Known(h).spec_encode(),
            ) == Altitude::Known(h),
            Altitude::spec_decode(raw).spec_encode() == raw,
    {
    }

    /// Encoding clamps: an out-of-range known altitude encodes to the same
    /// raw word as the nearest in-range one.
    pub proof fn lemma_encode_clamps(h: i32)
        ensures
            h < -2000 ==> Altitude::Known(h).spec_encode() == Altitude::Known(
                -2000i32,
            ).spec_encode(),
            h > 63535 ==> Altitude::Known(h).spec_encode() == Altitude::Known(
                63535i32,
            ).spec_encode(),
    {
    }
}

} // verus!
