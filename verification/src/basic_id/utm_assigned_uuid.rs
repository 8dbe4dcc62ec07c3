//! Traffic-management-assigned session identifier.

use vstd::prelude::*;

verus! {

use crate::error::Error;
use crate::try_serialize::write_bytes;
use crate::try_serialize::TrySerialize;

/// Unique user identifier issued for one session by an Unmanned Aircraft
/// System Traffic Management (UTM) system.
///
/// The format is unspecified beyond its width: 20 opaque bytes.
#[derive(Clone, Copy, PartialEq, Eq, Debug)]
pub struct UTMAssignedUUID(pub [u8; 20]);

impl UTMAssignedUUID {
    /// Constructs an identifier from its 20 bytes.
    pub fn new(uuid: [u8; 20]) -> (r: UTMAssignedUUID)
        ensures
            r.0 == uuid,
    {
        UTMAssignedUUID(uuid)
    }

    /// Returns the identifier bytes.
    pub fn uuid(&self) -> (r: [u8; 20])
        ensures
            r == self.0,
    {
        self.0
    }

    /// Decodes an identifier from a byte slice, which must be exactly 20
    /// bytes long; any other length is rejected with
    /// [`Error::InvalidDataLength`].
    pub fn try_from_bytes(value: &[u8]) -> (r: Result<UTMAssignedUUID, Error>)
        ensures
            value@.len() == 20 ==> (r matches Ok(u) && u.0@ == value@),
            value@.len() != 20 ==> r == Err::<UTMAssignedUUID, Error>(Error::InvalidDataLength),
    {
        if value.len() != 20 {
            return Err(Error::InvalidDataLength);
        }
        Ok(UTMAssignedUUID(crate::try_serialize::read_array(value, 0)))
    }
}

impl TrySerialize for UTMAssignedUUID {
    /// The wire width: 20 bytes.
    open spec fn spec_len(&self) -> nat {
        20
    }

    /// Serialization overwrites the whole buffer with the identifier bytes.
    open spec fn spec_serialized(&self, prev_bytes: Seq<u8>, next_bytes: Seq<u8>) -> bool {
        next_bytes == self.0@
    }

    fn try_serialize(&self, buffer: &mut Vec<u8>) -> (r: Result<(), Error>) {
        if buffer.len() != 20 {
            return Err(Error::InvalidDataLength);
        }
        write_bytes(buffer, 0, self.0.as_slice());
        proof {
            assert(buffer@ =~= self.0@);
        }
        Ok(())
    }
}

} // verus!
