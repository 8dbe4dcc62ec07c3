//! Unmanned aircraft type codec.

use vstd::prelude::*;

verus! {

use crate::error::Error;

/// Type of unmanned aircraft; may be used to infer flight characteristics.
///
/// The wire format is a nibble with the named codes 0 through 14; 15 is
/// rejected.
#[derive(Clone, Copy, PartialEq, Eq, Structural, Debug)]
pub enum UAType {
    /// Undeclared.
    NotDeclared,
    /// Fixed-wing aircraft.
    Aeroplane,
    /// Rotor wing, either helicopter or multi-copter.
    Helicopter,
    /// Unpowered rotor wing using autorotation.
    Gyroplane,
    /// Vertical take-off and landing aircraft with an alternative flight
    /// characteristic, such as a fixed wing.
    HybridLift,
    /// Aircraft that uses flapping wings to generate lift.
    Ornithopter,
    /// Fixed-wing aircraft, often unpowered.
    Glider,
    /// Tethered aircraft using moving air to generate lift.
    Kite,
    /// Unguided, untethered balloon using gas buoyancy to generate lift.
    FreeBalloon,
    /// Tethered or piloted balloon using gas buoyancy to generate lift.
    CaptiveBalloon,
    /// A type of missile aircraft, presumably unpowered.
    FreeFall,
    /// Rocket-propelled aircraft.
    Rocket,
    /// Aircraft that communicates via a wired connection.
    TetheredPoweredAircraft,
    /// Ground obstacle.
    GroundObstacle,
    /// Unlisted but not undeclared.
    Other,
}

impl UAType {
    /// What decoding a raw byte yields: the named code, or a rejection for
    /// anything above 14.
    pub open spec fn spec_decode(raw: u8) -> Result<UAType, Error> {
        if raw == 0 {
            Ok(UAType::NotDeclared)
        } else if raw == 1 {
            Ok(UAType::Aeroplane)
        } else if raw == 2 {
            Ok(UAType::Helicopter)
        } else if raw == 3 {
            Ok(UAType::Gyroplane)
        } else if raw == 4 {
            Ok(UAType::HybridLift)
        } else if raw == 5 {
            Ok(UAType::Ornithopter)
        } else if raw == 6 {
            Ok(UAType::Glider)
        } else if raw == 7 {
            Ok(UAType::Kite)
        } else if raw == 8 {
            Ok(UAType::FreeBalloon)
        } else if raw == 9 {
            Ok(UAType::CaptiveBalloon)
        } else if raw == 10 {
            Ok(UAType::FreeFall)
        } else if raw == 11 {
            Ok(UAType::Rocket)
        } else if raw == 12 {
            Ok(UAType::TetheredPoweredAircraft)
        } else if raw == 13 {
            Ok(UAType::GroundObstacle)
        } else if raw == 14 {
            Ok(UAType::Other)
        } else {
            Err(Error::InvalidInteger)
        }
    }

    /// What encoding yields: the named code of the variant.
    pub open spec fn spec_encode(self) -> u8 {
        match self {
            UAType::NotDeclared => 0u8,
            UAType::Aeroplane => 1u8,
            UAType::Helicopter => 2u8,
            UAType::Gyroplane => 3u8,
            UAType::HybridLift => 4u8,
            UAType::Ornithopter => 5u8,
            UAType::Glider => 6u8,
            UAType::Kite => 7u8,
            UAType::FreeBalloon => 8u8,
            UAType::CaptiveBalloon => 9u8,
            UAType::FreeFall => 10u8,
            UAType::Rocket => 11u8,
            UAType::TetheredPoweredAircraft => 12u8,
            UAType::GroundObstacle => 13u8,
            UAType::Other => 14u8,
        }
    }

    /// Decodes a raw byte; rejects anything above 14 with
    /// [`Error::InvalidInteger`].
    pub fn decode(raw: u8) -> (r: Result<UAType, Error>)
        ensures
            r == UAType::spec_decode(raw),
    {
        match raw {
            0 => Ok(UAType::NotDeclared),
            1 => Ok(UAType::Aeroplane),
            2 => Ok(UAType::Helicopter),
            3 => Ok(UAType::Gyroplane),
            4 => Ok(UAType::HybridLift),
            5 => Ok(UAType::Ornithopter),
            6 => Ok(UAType::Glider),
            7 => Ok(UAType::Kite),
            8 => Ok(UAType::FreeBalloon),
            9 => Ok(UAType::CaptiveBalloon),
            10 => Ok(UAType::FreeFall),
            11 => Ok(UAType::Rocket),
            12 => Ok(UAType::TetheredPoweredAircraft),
            13 => Ok(UAType::GroundObstacle),
            14 => Ok(UAType::Other),
            _ => Err(Error::InvalidInteger),
        }
    }

    /// Encodes into a raw byte.
    pub fn encode(&self) -> (r: u8)
        ensures
            r == self.spec_encode(),
    {
        match self {
            UAType::NotDeclared => 0,
            UAType::Aeroplane => 1,
            UAType::Helicopter => 2,
            UAType::Gyroplane => 3,
            UAType::HybridLift => 4,
            UAType::Ornithopter => 5,
            UAType::Glider => 6,
            UAType::Kite => 7,
            UAType::FreeBalloon => 8,
            UAType::CaptiveBalloon => 9,
            UAType::FreeFall => 10,
            UAType::Rocket => 11,
            UAType::TetheredPoweredAircraft => 12,
            UAType::GroundObstacle => 13,
            UAType::Other => 14,
        }
    }

    /// Round trip: every variant survives an encode followed by a decode,
    /// and every raw code through 14 survives a decode followed by an
    /// encode.
    pub proof fn lemma_round_trip(v: UAType, raw: u8)
        ensures
            UAType::spec_decode(v.spec_encode()) == Ok::<UAType, Error>(v),
            raw <= 14 ==> (match UAType::spec_decode(raw) {
                Ok(t) => t.spec_encode() == raw,
                Err(_) => false,
            }),
    {
    }
}

} // verus!
