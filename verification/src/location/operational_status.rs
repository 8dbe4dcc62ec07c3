//! Operational status codec.

use vstd::prelude::*;

verus! {

use crate::error::Error;

/// Operational status of the aircraft; may be used to signal an emergency.
///
/// The wire format is a nibble: codes 0 through 4 are the named statuses,
/// codes 5 through 15 are reserved.
#[derive(Clone, Copy, PartialEq, Eq, Structural, Debug)]
pub enum OperationalStatus {
    /// Undeclared status.
    Undeclared,
    /// The aircraft is on the ground.
    Ground,
    /// The aircraft is airborne.
    Airborne,
    /// The aircraft is signalling an emergency.
    Emergency,
    /// The remote identification system is failing.
    RemoteIDSystemFailure,
    /// Reserved.
    Reserved,
}

impl OperationalStatus {
    /// Largest legal raw code.
    pub const MAX: u8 = 15;

    /// Smallest reserved code.
    pub const RESERVED_THRESHOLD: u8 = 5;

    /// What decoding a raw byte yields: codes above the maximum are
    /// rejected, codes at or above the reserved threshold map to reserved,
    /// the rest to their named status.
    pub open spec fn spec_decode(raw: u8) -> Result<OperationalStatus, Error> {
        if raw > 15 {
            Err(Error::InvalidInteger)
        } else if raw == 0 {
            Ok(OperationalStatus::Undeclared)
        } else if raw == 1 {
            Ok(OperationalStatus::Ground)
        } else if raw == 2 {
            Ok(OperationalStatus::Airborne)
        } else if raw == 3 {
            Ok(OperationalStatus::Emergency)
        } else if raw == 4 {
            Ok(OperationalStatus::RemoteIDSystemFailure)
        } else {
            Ok(OperationalStatus::Reserved)
        }
    }

    /// What encoding yields: the named code, or the reserved threshold for
    /// the reserved variant.
    pub open spec fn spec_encode(self) -> u8 {
        match self {
            OperationalStatus::Undeclared => 0u8,
            OperationalStatus::Ground => 1u8,
            OperationalStatus::Airborne => 2u8,
            OperationalStatus::Emergency => 3u8,
            OperationalStatus::RemoteIDSystemFailure => 4u8,
            OperationalStatus::Reserved => 5u8,
        }
    }

    /// Decodes a raw byte; rejects anything above the maximum with
    /// [`Error::InvalidInteger`].
    pub fn decode(raw: u8) -> (r: Result<OperationalStatus, Error>)
        ensures
            r == OperationalStatus::spec_decode(raw),
    {
        if raw > 15 {
            return Err(Error::InvalidInteger);
        }
        match raw {
            0 => Ok(OperationalStatus::Undeclared),
            1 => Ok(OperationalStatus::Ground),
            2 => Ok(OperationalStatus::Airborne),
            3 => Ok(OperationalStatus::Emergency),
            4 => Ok(OperationalStatus::RemoteIDSystemFailure),
            _ => Ok(OperationalStatus::Reserved),
        }
    }

    /// Encodes into a raw byte.
    pub fn encode(&self) -> (r: u8)
        ensures
            r == self.spec_encode(),
    {
        match self {
            OperationalStatus::Undeclared => 0,
            OperationalStatus::Ground => 1,
            OperationalStatus::Airborne => 2,
            OperationalStatus::Emergency => 3,
            OperationalStatus::RemoteIDSystemFailure => 4,
            OperationalStatus::Reserved => 5,
        }
    }

    /// Round trip: every variant survives an encode followed by a decode,
    /// and every named raw code survives a decode followed by an encode.
    pub proof fn lemma_round_trip(v: OperationalStatus, raw: u8)
        ensures
            OperationalStatus::spec_decode(v.spec_encode()) == Ok::<OperationalStatus, Error>(v),
            raw <= 5 ==> (match OperationalStatus::spec_decode(raw) {
                Ok(s) => s.spec_encode() == raw,
                Err(_) => false,
            }),
    {
    }

    /// Threshold rule: every raw code from the reserved threshold through
    /// the maximum decodes to [`OperationalStatus::Reserved`].
    pub proof fn lemma_threshold(raw: u8)
        ensures
            5 <= raw <= 15 ==> OperationalStatus::spec_decode(raw) == Ok::<
                OperationalStatus,
                Error,
            >(OperationalStatus::Reserved),
    {
    }
}

} // verus!
