//! Ground speed codec.

use vstd::prelude::*;

verus! {

/// Ground speed, in quarter-meter-per-second units.
///
/// One unit is 0.25 m/s, the finest resolution of the wire format, so a
/// value of `u` units stands for `u / 4` m/s.
///
/// The wire format is a precision flag and one byte.  Speeds up to 63.75 m/s
/// (255 units) are encoded in 0.25 m/s steps with the flag clear (high
/// precision); faster speeds are encoded in 0.75 m/s steps above 63.75 m/s
/// with the flag set (low precision), clamped at 254 m/s.  The raw byte 255
/// stands for an unknown speed regardless of the flag.
#[derive(Clone, Copy, PartialEq, Eq, Structural, Debug)]
pub enum GroundSpeed {
    /// Invalid ground speed.
    Invalid,
    /// No value provided.
    NoValue,
    /// Unknown value (indicated by the raw byte 255).
    Unknown,
    /// Known value, in quarter-m/s units.
    Known(i32),
}

impl GroundSpeed {
    /// Raw byte that stands for [`GroundSpeed::Unknown`].
    pub const UNKNOWN_CODE: u8 = 255;

    /// Maximum speed in quarter-m/s units (254 m/s); anything at or above
    /// this encodes to the low-precision byte 254.
    pub const MAX: i32 = 1016;

    /// Largest speed of the high-precision branch, in quarter-m/s units
    /// (63.75 m/s).
    pub const PRECISION_THRESHOLD: i32 = 255;

    /// Quarter-m/s units per low-precision step (0.75 m/s).
    pub const LOW_PRECISION_STEP: i32 = 3;

    /// What decoding a flag and byte yields: byte 255 maps to unknown with
    /// either flag; with the flag set the byte counts 0.75 m/s steps above
    /// 63.75 m/s, with it clear it counts 0.25 m/s steps from zero.
    pub open spec fn spec_decode(use_low_precision: bool, raw: u8) -> GroundSpeed {
        if raw == 255 {
            GroundSpeed::Unknown
        } else if use_low_precision {
            GroundSpeed::Known((255 + 3 * raw) as i32)
        } else {
            GroundSpeed::Known(raw as i32)
        }
    }

    /// What encoding yields.  A known speed at or above 254 m/s is clamped
    /// to the low-precision byte 254; one at most 63.75 m/s (but not below
    /// zero) is its own high-precision byte; one in between counts
    /// 0.75 m/s steps above 63.75 m/s, rounded down.
    pub open spec fn spec_encode(self) -> (bool, u8) {
        match self {
            GroundSpeed::Invalid | GroundSpeed::NoValue => (false, 0u8),
            GroundSpeed::Unknown => (false, 255u8),
            GroundSpeed::Known(u) => if u >= 1016 {
                (true, 254u8)
            } else if u <= 0 {
                (false, 0u8)
            } else if u <= 255 {
                (false, u as u8)
            } else {
                (true, ((u - 255) / 3) as u8)
            },
        }
    }

    /// Decodes a precision flag and raw byte.
    pub fn decode(use_low_precision: bool, raw: u8) -> (r: GroundSpeed)
        ensures
            r == GroundSpeed::spec_decode(use_low_precision, raw),
    {
        if raw == 255 {
            GroundSpeed::Unknown
        } else if use_low_precision {
            GroundSpeed::Known(255 + 3 * raw as i32)
        } else {
            GroundSpeed::Known(raw as i32)
        }
    }

    /// Encodes into a precision flag and raw byte.
    pub fn encode(&self) -> (r: (bool, u8))
        ensures
            r == self.spec_encode(),
    {
        match self {
            GroundSpeed::Invalid | GroundSpeed::NoValue => (false, 0),
            GroundSpeed::Unknown => (false, 255),
            GroundSpeed::Known(u) => {
                if *u >= 1016 {
                    (true, 254)
                } else if *u <= 0 {
                    (false, 0)
                } else if *u <= 255 {
                    (false, *u as u8)
                } else {
                    (true, ((*u - 255) / 3) as u8)
                }
            },
        }
    }

    /// Round trip of known speeds: every representable speed survives an
    /// encode followed by a decode.  Representable are the high-precision
    /// units 0 through 254 and the low-precision steps 258, 261, ... 1017.
    ///
    /// The speed of exactly 255 units (63.75 m/s) does not round-trip: its
    /// high-precision byte is 255, which is reserved for the unknown value.
    pub proof fn lemma_known_round_trip(u: i32)
        ensures
            0 <= u < 255 ==> GroundSpeed::spec_decode(
                GroundSpeed::Known(u).spec_encode().0,
                GroundSpeed::Known(u).spec_encode().1,
            ) == GroundSpeed::Known(u),
            255 < u <= 1017 && (u - 255) % 3 == 0 ==> GroundSpeed::spec_decode(
                GroundSpeed::Known(u).spec_encode().0,
                GroundSpeed::Known(u).spec_encode().1,
            ) == GroundSpeed::Known(u),
    {
    }

    /// Round trip of raw codes: every flag-and-byte pair survives a decode
    /// followed by an encode, except the pair `(true, 0)`, which denotes the
    /// same speed as `(false, 255)` and so re-encodes as the unknown code.
    /// In particular the unknown byte 255 always comes back as byte 255,
    /// whatever the flag.
    pub proof fn lemma_raw_round_trip(use_low_precision: bool, raw: u8)
        ensures
            raw != 255 && !(use_low_precision && raw == 0) ==> GroundSpeed::spec_decode(
                use_low_precision,
                raw,
            ).spec_encode() == (use_low_precision, raw),
            raw == 255 ==> GroundSpeed::spec_decode(use_low_precision, raw).spec_encode() == (
                false,
                255u8,
            ),
    {
    }

    /// Encoding clamps: a known speed above the 254 m/s maximum encodes to
    /// the same raw pair as the maximum itself, and a negative one to the
    /// same raw pair as zero.
    pub proof fn lemma_encode_clamps(u: i32)
        ensures
            u > 1016 ==> GroundSpeed::Known(u).spec_encode() == GroundSpeed::Known(
                1016i32,
            ).spec_encode(),
            u < 0 ==> GroundSpeed::Known(u).spec_encode() == GroundSpeed::Known(
                0i32,
            ).spec_encode(),
    {
    }
}

} // verus!
