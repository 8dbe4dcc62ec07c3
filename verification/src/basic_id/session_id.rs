//! Session identifier and its type codec.

use vstd::prelude::*;

verus! {

use crate::error::Error;
use crate::try_serialize::write_bytes;
use crate::try_serialize::TrySerialize;

/// Format of a [`SessionID`], signalled by its first byte.
#[derive(Clone, Copy, PartialEq, Eq, Structural, Debug)]
pub enum SessionIDType {
    /// Reserved.
    Reserved,
    /// Internet Engineering Task Force (IETF) Drone Remote ID Protocol
    /// (DRIP) entity identifier.
    IETFDroneRemoteIDProtocol,
    /// IEEE 1609.2-2016 HashedID8.
    IEEE16092HashedID8,
}

impl SessionIDType {
    /// What decoding a raw byte yields: the named code, or a rejection for
    /// anything above 2.
    pub open spec fn spec_decode(raw: u8) -> Result<SessionIDType, Error> {
        if raw == 0 {
            Ok(SessionIDType::Reserved)
        } else if raw == 1 {
            Ok(SessionIDType::IETFDroneRemoteIDProtocol)
        } else if raw == 2 {
            Ok(SessionIDType::IEEE16092HashedID8)
        } else {
            Err(Error::InvalidInteger)
        }
    }

    /// What encoding yields: the named code of the variant.
    pub open spec fn spec_encode(self) -> u8 {
        match self {
            SessionIDType::Reserved => 0u8,
            SessionIDType::IETFDroneRemoteIDProtocol => 1u8,
            SessionIDType::IEEE16092HashedID8 => 2u8,
        }
    }

    /// Decodes a raw byte; rejects anything above 2 with
    /// [`Error::InvalidInteger`].
    pub fn decode(raw: u8) -> (r: Result<SessionIDType, Error>)
        ensures
            r == SessionIDType::spec_decode(raw),
    {
        match raw {
            0 => Ok(SessionIDType::Reserved),
            1 => Ok(SessionIDType::IETFDroneRemoteIDProtocol),
            2 => Ok(SessionIDType::IEEE16092HashedID8),
            _ => Err(Error::InvalidInteger),
        }
    }

    /// Encodes into a raw byte.
    pub fn encode(&self) -> (r: u8)
        ensures
            r == self.spec_encode(),
    {
        match self {
            SessionIDType::Reserved => 0,
            SessionIDType::IETFDroneRemoteIDProtocol => 1,
            SessionIDType::IEEE16092HashedID8 => 2,
        }
    }

    /// Round trip: every variant survives an encode followed by a decode,
    /// and every raw code through 2 survives a decode followed by an
    /// encode.
    pub proof fn lemma_round_trip(v: SessionIDType, raw: u8)
        ensures
            SessionIDType::spec_decode(v.spec_encode()) == Ok::<SessionIDType, Error>(v),
            raw <= 2 ==> (match SessionIDType::spec_decode(raw) {
                Ok(t) => t.spec_encode() == raw,
                Err(_) => false,
            }),
    {
    }
}

/// Session identifier: one byte of [`SessionIDType`] followed by 19 bytes
/// of the session identifier itself.
#[derive(Clone, Copy, PartialEq, Eq, Debug)]
pub struct SessionID {
    /// Format of the identifier.
    pub session_id_type: SessionIDType,
    /// The identifier bytes.
    pub id: [u8; 19],
}

impl SessionID {
    /// Constructs a session identifier.
    pub fn new(session_id_type: SessionIDType, id: [u8; 19]) -> (r: SessionID)
        ensures
            r.session_id_type == session_id_type,
            r.id == id,
    {
        SessionID { session_id_type, id }
    }

    /// Returns the format of the identifier.
    pub fn session_id_type(&self) -> (r: SessionIDType)
        ensures
            r == self.session_id_type,
    {
        self.session_id_type
    }

    /// Returns the identifier bytes (without the type byte).
    pub fn id(&self) -> (r: [u8; 19])
        ensures
            r == self.id,
    {
        self.id
    }

    /// Decodes a session identifier from a byte slice, which must be
    /// exactly 20 bytes long; any other length is rejected with
    /// [`Error::InvalidDataLength`], and an unrecognized type byte with
    /// [`Error::InvalidInteger`].
    pub fn try_from_bytes(value: &[u8]) -> (r: Result<SessionID, Error>)
        ensures
            value@.len() != 20 ==> r == Err::<SessionID, Error>(Error::InvalidDataLength),
            value@.len() == 20 ==> (match SessionIDType::spec_decode(value@[0]) {
                Ok(t) => r matches Ok(s) && s.session_id_type == t && s.id@ == value@.subrange(
                    1,
                    20,
                ),
                Err(e) => r == Err::<SessionID, Error>(e),
            }),
    {
        if value.len() != 20 {
            return Err(Error::InvalidDataLength);
        }
        let session_id_type = match SessionIDType::decode(value[0]) {
            Ok(t) => t,
            Err(e) => { return Err(e) },
        };
        let id: [u8; 19] = crate::try_serialize::read_array(value, 1);
        Ok(SessionID { session_id_type, id })
    }
}

impl TrySerialize for SessionID {
    /// The wire width: 20 bytes.
    open spec fn spec_len(&self) -> nat {
        20
    }

    /// Serialization writes the type byte followed by the identifier.
    open spec fn spec_serialized(&self, prev_bytes: Seq<u8>, next_bytes: Seq<u8>) -> bool {
        &&& next_bytes.len() == 20
        &&& next_bytes[0] == self.session_id_type.spec_encode()
        &&& next_bytes.subrange(1, 20) == self.id@
    }

    fn try_serialize(&self, buffer: &mut Vec<u8>) -> (r: Result<(), Error>) {
        if buffer.len() != 20 {
            return Err(Error::InvalidDataLength);
        }
        buffer.set(0, self.session_id_type.encode());
        write_bytes(buffer, 1, self.id.as_slice());
        proof {
            assert(buffer@.subrange(1, 20) =~= self.id@);
        }
        Ok(())
    }
}

} // verus!
