//! Longitude codec.

use vstd::prelude::*;

verus! {

/// Longitude, in units of 1e-7 degree.
///
/// The wire format stores the angle as a signed 32-bit integer counting
/// 1e-7-degree steps, so a value of `n` units stands for `n / 10_000_000`
/// degrees.  The legal range is -180 through 180 degrees.
///
/// [`Longitude::Unknown`] technically should only be set if both latitude
/// and longitude are zero; checking that would make the two values dependent
/// on one another, so the line is drawn here and each is validated alone.
#[derive(Clone, Copy, PartialEq, Eq, Structural, Debug)]
pub enum Longitude {
    /// Invalid value (beyond the -180 to 180 degree bound).
    Invalid,
    /// Unknown value (indicated by 0).
    Unknown,
    /// Known value, in 1e-7-degree units.
    Known(i64),
}

impl Longitude {
    /// Raw code that stands for [`Longitude::Unknown`].
    pub const UNKNOWN_CODE: i32 = 0;

    /// Minimum longitude, -180 degrees, in 1e-7-degree units.
    pub const MIN: i64 = -1_800_000_000;

    /// Maximum longitude, 180 degrees, in 1e-7-degree units.
    pub const MAX: i64 = 1_800_000_000;

    /// Number of units per degree.
    pub const MULTIPLIER: i64 = 10_000_000;

    /// What decoding a raw word yields: zero maps to unknown, an angle
    /// outside the legal range to invalid, anything else to itself.
    pub open spec fn spec_decode(raw: i32) -> Longitude {
        if raw == 0 {
            Longitude::Unknown
        } else if raw < -1_800_000_000 || raw > 1_800_000_000 {
            Longitude::Invalid
        } else {
            Longitude::Known(raw as i64)
        }
    }

    /// The angle reported for a value: known angles are clamped into the
    /// legal range, the other variants report zero.
    pub open spec fn spec_longitude(self) -> i64 {
        match self {
            Longitude::Invalid | Longitude::Unknown => 0,
            Longitude::Known(n) => if n < -1_800_000_000 {
                -1_800_000_000i64
            } else if n > 1_800_000_000 {
                1_800_000_000i64
            } else {
                n
            },
        }
    }

    /// What encoding yields: the clamped angle itself.
    pub open spec fn spec_encode(self) -> i32 {
        self.spec_longitude() as i32
    }

    /// Decodes a raw signed 32-bit word.
    pub fn decode(raw: i32) -> (r: Longitude)
        ensures
            r == Longitude::spec_decode(raw),
    {
        if raw == 0 {
            Longitude::Unknown
        } else if raw < -1_800_000_000 || raw > 1_800_000_000 {
            Longitude::Invalid
        } else {
            Longitude::Known(raw as i64)
        }
    }

    /// Returns the angle in 1e-7-degree units, clamped into the legal range
    /// in the event a caller manually constructed an out-of-range value.
    pub fn longitude(&self) -> (r: i64)
        ensures
            r == self.spec_longitude(),
    {
        match self {
            Longitude::Invalid | Longitude::Unknown => 0,
            Longitude::Known(n) => {
                if *n < -1_800_000_000 {
                    -1_800_000_000
                } else if *n > 1_800_000_000 {
                    1_800_000_000
                } else {
                    *n
                }
            },
        }
    }

    /// Encodes into a raw signed 32-bit word.
    pub fn encode(&self) -> (r: i32)
        ensures
            r == self.spec_encode(),
    {
        self.longitude() as i32
    }

    /// Round trip in both directions: every nonzero known angle in the legal
    /// range survives an encode followed by a decode, and every raw word in
    /// the legal range survives a decode followed by an encode.
    ///
    /// The one known angle that does not round-trip is 0, whose raw code is
    /// reserved for the unknown value; a raw word outside the legal range
    /// decodes to [`Longitude::Invalid`], which encodes back to 0.
    pub proof fn lemma_round_trip(n: i64, raw: i32)
        ensures
            -1_800_000_000 <= n <= 1_800_000_000 && n != 0 ==> Longitude::spec_decode(
                Longitude::Known(n).spec_encode(),
            ) == Longitude::Known(n),
            -1_800_000_000 <= raw <= 1_800_000_000 ==> Longitude::spec_decode(
                raw,
            ).spec_encode() == raw,
    {
    }

    /// Encoding clamps: an out-of-range known angle encodes to the same raw
    /// word as the nearest legal one.
    pub proof fn lemma_encode_clamps(n: i64)
        ensures
            n < -1_800_000_000 ==> Longitude::Known(n).spec_encode() == Longitude::Known(
                -1_800_000_000i64,
            ).spec_encode(),
            n > 1_800_000_000 ==> Longitude::Known(n).spec_encode() == Longitude::Known(
                1_800_000_000i64,
            ).spec_encode(),
    {
    }
}

} // verus!
