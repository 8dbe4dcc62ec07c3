//! Basic identification message and its identifier types.
//!
//! A basic identification message carries the aircraft type and one
//! identifier: a manufacturer serial number, a registration number issued
//! by a Civil Aviation Authority, a traffic-management identifier, or a
//! session identifier.

mod registration_id;
mod serial_number;
mod session_id;
mod ua_type;
mod uas_id;
mod utm_assigned_uuid;

pub use registration_id::RegistrationID;
pub use serial_number::SerialNumber;
pub use session_id::SessionID;
pub use session_id::SessionIDType;
pub use ua_type::UAType;
pub use uas_id::UASID;
pub use utm_assigned_uuid::UTMAssignedUUID;

use vstd::prelude::*;

verus! {

use crate::error::Error;
use crate::try_serialize::unchanged_outside;
use crate::try_serialize::write_bytes;
use crate::try_serialize::TrySerialize;

/// Basic identification message: the aircraft type and a unique
/// identifier.
///
/// The wire format is 24 bytes: the low nibble of the first byte holds the
/// aircraft type, the first 21 bytes (the first byte included) hold the
/// identifier, and the last 3 bytes are untouched padding.
#[derive(Clone, Copy, PartialEq, Eq, Debug)]
pub struct BasicID {
    /// Type of the aircraft.
    pub ua_type: UAType,
    /// The aircraft's identifier.
    pub uas_id: UASID,
}

impl BasicID {
    /// Constructs a basic identification message.
    pub fn new(ua_type: UAType, uas_id: UASID) -> (r: BasicID)
        ensures
            r.ua_type == ua_type,
            r.uas_id == uas_id,
    {
        BasicID { ua_type, uas_id }
    }

    /// Returns the type of the aircraft.
    pub fn ua_type(&self) -> (r: UAType)
        ensures
            r == self.ua_type,
    {
        self.ua_type
    }

    /// Returns the aircraft's identifier.
    pub fn uas_id(&self) -> (r: UASID)
        ensures
            r == self.uas_id,
    {
        self.uas_id
    }

    /// The exact decoding relation of [`BasicID::try_from_bytes`]: `r` is
    /// the result that decoding the bytes `value` yields.
    pub open spec fn spec_decode_rel(value: Seq<u8>, r: Result<BasicID, Error>) -> bool {
        if value.len() != 24 {
            r == Err::<BasicID, Error>(Error::InvalidDataLength)
        } else {
            match UAType::spec_decode(value[0] % 16) {
                Err(e) => r == Err::<BasicID, Error>(e),
                Ok(t) => match r {
                    Ok(b) => b.ua_type == t && UASID::spec_decode_rel(
                        value.subrange(0, 21),
                        Ok(b.uas_id),
                    ),
                    Err(e) => UASID::spec_decode_rel(value.subrange(0, 21), Err::<UASID, Error>(e)),
                },
            }
        }
    }

    /// Decodes a basic identification message from a byte slice, which
    /// must be exactly 24 bytes long: the aircraft type is read from the
    /// low nibble of the first byte, then the identifier from the first 21
    /// bytes.
    pub fn try_from_bytes(value: &[u8]) -> (r: Result<BasicID, Error>)
        ensures
            BasicID::spec_decode_rel(value@, r),
    {
        if value.len() != 24 {
            return Err(Error::InvalidDataLength);
        }
        let ua_type = match UAType::decode(value[0] % 16) {
            Ok(t) => t,
            Err(e) => { return Err(e) },
        };
        let uas_id = match UASID::try_from_bytes(vstd::slice::slice_subrange(value, 0, 21)) {
            Ok(id) => id,
            Err(e) => { return Err(e) },
        };
        Ok(BasicID { ua_type, uas_id })
    }
}

impl TrySerialize for BasicID {
    /// The wire width: 24 bytes.
    open spec fn spec_len(&self) -> nat {
        24
    }

    /// Serialization writes the aircraft type into the first byte, then
    /// the identifier over the first 21 bytes; the last 3 bytes keep their
    /// previous contents.
    open spec fn spec_serialized(&self, prev_bytes: Seq<u8>, next_bytes: Seq<u8>) -> bool {
        &&& next_bytes.len() == 24
        &&& self.uas_id.spec_serialized(
            prev_bytes.subrange(0, 21).update(0, self.ua_type.spec_encode()),
            next_bytes.subrange(0, 21),
        )
        &&& unchanged_outside(prev_bytes, next_bytes, 0, 21)
    }

    fn try_serialize(&self, buffer: &mut Vec<u8>) -> (r: Result<(), Error>) {
        if buffer.len() != 24 {
            return Err(Error::InvalidDataLength);
        }
        buffer.set(0, self.ua_type.encode());
        let mut body: Vec<u8> = vstd::slice::slice_to_vec(
            vstd::slice::slice_subrange(buffer.as_slice(), 0, 21),
        );
        proof {
            assert(body@ =~= old(buffer)@.subrange(0, 21).update(0, self.ua_type.spec_encode()));
        }
        match self.uas_id.try_serialize(&mut body) {
            Ok(()) => {
                write_bytes(buffer, 0, body.as_slice());
                proof {
                    assert(buffer@.subrange(0, 21) =~= body@);
                }
                Ok(())
            },
            Err(e) => Err(e),
        }
    }
}

} // verus!
