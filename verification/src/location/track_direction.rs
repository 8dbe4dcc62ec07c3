//! Track direction codec.

use vstd::prelude::*;

verus! {

/// Flight direction, measured from True North in clockwise degrees with a
/// resolution of 1 degree.
///
/// The wire format is an east/west flag and an angle byte; the combined
/// direction is the angle plus 180 when the flag is set.  The combined value
/// 361 stands for an unknown direction (an aircraft not moving horizontally
/// reports it), and anything above 361 is invalid.
#[derive(Clone, Copy, PartialEq, Eq, Structural, Debug)]
pub enum TrackDirection {
    /// Invalid value (combined values greater than 361).
    Invalid,
    /// No value.
    NoValue,
    /// Unknown value (indicated by 361).
    Unknown,
    /// Known value, in degrees.
    Known(u16),
}

impl TrackDirection {
    /// Combined value that stands for [`TrackDirection::Unknown`].
    pub const UNKNOWN_CODE: u16 = 361;

    /// Combined value that stands for [`TrackDirection::Invalid`].
    pub const INVALID_CODE: u16 = 362;

    /// Offset added to the angle byte when the east/west flag is set.
    pub const EAST_WEST_OFFSET: u16 = 180;

    /// What decoding a flag and angle byte yields: the combined value 361
    /// maps to unknown, anything above to invalid, anything below to itself.
    pub open spec fn spec_decode(east_west: bool, angle: u8) -> TrackDirection {
        let combined = if east_west {
            angle + 180
        } else {
            angle as int
        };
        if combined > 361 {
            TrackDirection::Invalid
        } else if combined == 361 {
            TrackDirection::Unknown
        } else {
            TrackDirection::Known(combined as u16)
        }
    }

    /// The combined value reported for a direction: known directions are
    /// clamped at the invalid code, the unknown and invalid values report
    /// their codes.
    pub open spec fn spec_direction(self) -> u16 {
        match self {
            TrackDirection::Invalid | TrackDirection::NoValue => 362,
            TrackDirection::Unknown => 361,
            TrackDirection::Known(n) => if n > 362 {
                362
            } else {
                n
            },
        }
    }

    /// What encoding yields: directions above 180 set the east/west flag
    /// and store the remainder in the angle byte.
    pub open spec fn spec_encode(self) -> (bool, u8) {
        let v = self.spec_direction();
        if v > 180 {
            (true, (v - 180) as u8)
        } else {
            (false, v as u8)
        }
    }

    /// Decodes an east/west flag and angle byte.
    pub fn decode(east_west: bool, angle: u8) -> (r: TrackDirection)
        ensures
            r == TrackDirection::spec_decode(east_west, angle),
    {
        let combined: u16 = if east_west {
            angle as u16 + 180
        } else {
            angle as u16
        };
        if combined > 361 {
            TrackDirection::Invalid
        } else if combined == 361 {
            TrackDirection::Unknown
        } else {
            TrackDirection::Known(combined)
        }
    }

    /// Returns the combined direction: known directions clamped at the
    /// invalid code 362, the unknown value as 361, and 362 for the invalid
    /// and absent values.
    pub fn direction(&self) -> (r: u16)
        ensures
            r == self.spec_direction(),
    {
        match self {
            TrackDirection::Invalid | TrackDirection::NoValue => 362,
            TrackDirection::Unknown => 361,
            TrackDirection::Known(n) => {
                if *n > 362 {
                    362
                } else {
                    *n
                }
            },
        }
    }

    /// Encodes into an east/west flag and angle byte.
    pub fn encode(&self) -> (r: (bool, u8))
        ensures
            r == self.spec_encode(),
    {
        let v: u16 = self.direction();
        if v > 180 {
            (true, (v - 180) as u8)
        } else {
            (false, v as u8)
        }
    }

    /// Round trip of known directions: every direction from 0 through 360
    /// degrees survives an encode followed by a decode.
    pub proof fn lemma_known_round_trip(n: u16)
        ensures
            n <= 360 ==> TrackDirection::spec_decode(
                TrackDirection::Known(n).spec_encode().0,
                TrackDirection::Known(n).spec_encode().1,
            ) == TrackDirection::Known(n),
    {
    }

    /// Round trip of raw codes: a decode followed by an encode returns the
    /// raw pair unchanged for every pair that is the canonical encoding of
    /// its direction: the flag clear with an angle of at most 180, or the
    /// flag set with an angle from 1 through 182.
    ///
    /// The remaining pairs denote directions that are also reachable on the
    /// other branch and re-encode canonically, for example `(false, 200)`
    /// decodes to 200 degrees, which re-encodes as `(true, 20)`.
    pub proof fn lemma_raw_round_trip(east_west: bool, angle: u8)
        ensures
            !east_west && angle <= 180 ==> TrackDirection::spec_decode(
                east_west,
                angle,
            ).spec_encode() == (east_west, angle),
            east_west && 1 <= angle <= 182 ==> TrackDirection::spec_decode(
                east_west,
                angle,
            ).spec_encode() == (east_west, angle),
    {
    }

    /// Encoding clamps: a known direction above the invalid code encodes to
    /// the same raw pair as the invalid code itself.
    pub proof fn lemma_encode_clamps(n: u16)
        ensures
            n > 362 ==> TrackDirection::Known(n).spec_encode() == TrackDirection::Known(
                362u16,
            ).spec_encode(),
    {
    }
}

} // verus!
