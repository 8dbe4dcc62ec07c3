//! Aircraft identifier variants.

use vstd::prelude::*;

verus! {

use crate::basic_id::registration_id::spec_registration_wf;
use crate::basic_id::registration_id::RegistrationID;
use crate::basic_id::serial_number::spec_all_serial_bytes;
use crate::basic_id::serial_number::spec_is_hex_digit_byte;
use crate::basic_id::serial_number::SerialNumber;
use crate::basic_id::session_id::SessionID;
use crate::basic_id::session_id::SessionIDType;
use crate::basic_id::utm_assigned_uuid::UTMAssignedUUID;
use crate::error::Error;
use crate::try_serialize::write_bytes;
use crate::try_serialize::TrySerialize;

/// Identifier of an unmanned aircraft system: one of several possible
/// identifier formats, selected by the high nibble of the first of its 21
/// wire bytes.
#[derive(Clone, Copy, PartialEq, Eq, Debug)]
pub enum UASID {
    /// No identifier provided.
    NotProvided,
    /// Manufacturer-issued code and serial number.
    SerialNumber(SerialNumber),
    /// Registration number issued by a Civil Aviation Authority.
    RegistrationID(RegistrationID),
    /// Identifier issued by a traffic-management system.
    UTMAssignedUUID(UTMAssignedUUID),
    /// Session identifier: either an IETF DRIP entity identifier or an
    /// IEEE 1609.2-2016 HashedID8.
    SessionID(SessionID),
}

impl UASID {
    /// The type nibble stored in the high nibble of the first wire byte.
    pub open spec fn spec_type_nibble(self) -> u8 {
        match self {
            UASID::NotProvided => 0u8,
            UASID::SerialNumber(_) => 1u8,
            UASID::RegistrationID(_) => 2u8,
            UASID::UTMAssignedUUID(_) => 3u8,
            UASID::SessionID(_) => 4u8,
        }
    }

    /// The exact decoding relation of [`UASID::try_from_bytes`]: `r` is
    /// the result that decoding the bytes `value` yields.  For every
    /// `value` exactly one result satisfies it.
    pub open spec fn spec_decode_rel(value: Seq<u8>, r: Result<UASID, Error>) -> bool {
        if value.len() != 21 {
            r == Err::<UASID, Error>(Error::InvalidDataLength)
        } else {
            let tag = value[0] / 16;
            let body = value.subrange(1, 21);
            if tag == 0 {
                r == Ok::<UASID, Error>(UASID::NotProvided)
            } else if tag == 1 {
                if !spec_all_serial_bytes(body) {
                    r == Err::<UASID, Error>(Error::InvalidSerialNumber)
                } else if !spec_is_hex_digit_byte(body[4]) {
                    r == Err::<UASID, Error>(Error::InvalidSerialNumber)
                } else {
                    r matches Ok(UASID::SerialNumber(s)) && s.spec_bytes() == body
                }
            } else if tag == 2 {
                if !spec_registration_wf(body) {
                    r == Err::<UASID, Error>(Error::InvalidRegistrationID)
                } else {
                    r matches Ok(UASID::RegistrationID(id)) && id.spec_bytes() == body
                }
            } else if tag == 3 {
                r matches Ok(UASID::UTMAssignedUUID(u)) && u.0@ == body
            } else if tag == 4 {
                match SessionIDType::spec_decode(body[0]) {
                    Ok(t) => r matches Ok(UASID::SessionID(s)) && s.session_id_type == t
                        && s.id@ == body.subrange(1, 20),
                    Err(e) => r == Err::<UASID, Error>(e),
                }
            } else {
                r == Err::<UASID, Error>(Error::InvalidInteger)
            }
        }
    }

    /// Decodes an identifier from a byte slice, which must be exactly 21
    /// bytes long; its first byte's high nibble selects the format and the
    /// remaining 20 bytes are handed to that format's codec.  An
    /// unrecognized nibble is rejected with [`Error::InvalidInteger`].
    pub fn try_from_bytes(value: &[u8]) -> (r: Result<UASID, Error>)
        ensures
            UASID::spec_decode_rel(value@, r),
    {
        if value.len() != 21 {
            return Err(Error::InvalidDataLength);
        }
        let id_type: u8 = value[0] / 16;
        let id_bytes: &[u8] = vstd::slice::slice_subrange(value, 1, 21);
        match id_type {
            0 => Ok(UASID::NotProvided),
            1 => match SerialNumber::try_from_bytes(id_bytes) {
                Ok(s) => Ok(UASID::SerialNumber(s)),
                Err(e) => Err(e),
            },
            2 => match RegistrationID::try_from_bytes(id_bytes) {
                Ok(id) => Ok(UASID::RegistrationID(id)),
                Err(e) => Err(e),
            },
            3 => match UTMAssignedUUID::try_from_bytes(id_bytes) {
                Ok(u) => Ok(UASID::UTMAssignedUUID(u)),
                Err(e) => Err(e),
            },
            4 => match SessionID::try_from_bytes(id_bytes) {
                Ok(s) => Ok(UASID::SessionID(s)),
                Err(e) => Err(e),
            },
            _ => Err(Error::InvalidInteger),
        }
    }
}

impl TrySerialize for UASID {
    /// The wire width: 21 bytes.
    open spec fn spec_len(&self) -> nat {
        21
    }

    /// Serialization merges the type nibble into the high nibble of the
    /// first byte and writes the identifier into the remaining 20; an
    /// absent identifier writes nothing at all.
    open spec fn spec_serialized(&self, prev_bytes: Seq<u8>, next_bytes: Seq<u8>) -> bool {
        match *self {
            UASID::NotProvided => next_bytes == prev_bytes,
            UASID::SerialNumber(s) => {
                &&& next_bytes.len() == 21
                &&& next_bytes[0] == prev_bytes[0] | 16u8
                &&& next_bytes.subrange(1, 21) == s.spec_bytes()
            },
            UASID::RegistrationID(id) => {
                &&& next_bytes.len() == 21
                &&& next_bytes[0] == prev_bytes[0] | 32u8
                &&& next_bytes.subrange(1, 21) == id.spec_bytes()
            },
            UASID::UTMAssignedUUID(u) => {
                &&& next_bytes.len() == 21
                &&& next_bytes[0] == prev_bytes[0] | 48u8
                &&& next_bytes.subrange(1, 21) == u.0@
            },
            UASID::SessionID(s) => {
                &&& next_bytes.len() == 21
                &&& next_bytes[0] == prev_bytes[0] | 64u8
                &&& next_bytes[1] == s.session_id_type.spec_encode()
                &&& next_bytes.subrange(2, 21) == s.id@
            },
        }
    }

    fn try_serialize(&self, buffer: &mut Vec<u8>) -> (r: Result<(), Error>) {
        if buffer.len() != 21 {
            return Err(Error::InvalidDataLength);
        }
        match self {
            UASID::NotProvided => Ok(()),
            UASID::SerialNumber(s) => {
                buffer.set(0, buffer[0] | 16);
                let mut body: Vec<u8> = vstd::slice::slice_to_vec(
                    vstd::slice::slice_subrange(buffer.as_slice(), 1, 21),
                );
                match s.try_serialize(&mut body) {
                    Ok(()) => {
                        write_bytes(buffer, 1, body.as_slice());
                        proof {
                            assert(buffer@.subrange(1, 21) =~= s.spec_bytes());
                        }
                        Ok(())
                    },
                    Err(e) => Err(e),
                }
            },
            UASID::RegistrationID(id) => {
                buffer.set(0, buffer[0] | 32);
                let mut body: Vec<u8> = vstd::slice::slice_to_vec(
                    vstd::slice::slice_subrange(buffer.as_slice(), 1, 21),
                );
                match id.try_serialize(&mut body) {
                    Ok(()) => {
                        write_bytes(buffer, 1, body.as_slice());
                        proof {
                            assert(buffer@.subrange(1, 21) =~= id.spec_bytes());
                        }
                        Ok(())
                    },
                    Err(e) => Err(e),
                }
            },
            UASID::UTMAssignedUUID(u) => {
                buffer.set(0, buffer[0] | 48);
                write_bytes(buffer, 1, u.0.as_slice());
                proof {
                    assert(buffer@.subrange(1, 21) =~= u.0@);
                }
                Ok(())
            },
            UASID::SessionID(s) => {
                buffer.set(0, buffer[0] | 64);
                buffer.set(1, s.session_id_type.encode());
                write_bytes(buffer, 2, s.id.as_slice());
                proof {
                    assert(buffer@.subrange(2, 21) =~= s.id@);
                }
                Ok(())
            },
        }
    }
}

} // verus!
