//! Operator identification message.
//!
//! Carries an identifier unique to the operator of the aircraft, generally
//! issued by the operator's Civil Aviation Authority.

mod operator_id_type;

pub use operator_id_type::OperatorIDType;

use vstd::prelude::*;

verus! {

use crate::error::Error;
use crate::try_serialize::unchanged_outside;
use crate::try_serialize::write_bytes;
use crate::try_serialize::TrySerialize;

/// Operator identification message: an identifier type and a 20-byte
/// identifier.
///
/// The wire format is 24 bytes: the type byte, the 20 identifier bytes,
/// and 3 bytes of untouched padding.
#[derive(Clone, Copy, PartialEq, Eq, Debug)]
pub struct OperatorID {
    /// Type of the identifier.
    pub operator_id_type: OperatorIDType,
    /// The raw identifier bytes.
    pub id: [u8; 20],
}

impl OperatorID {
    /// Constructs an operator identification message.
    pub fn new(operator_id_type: OperatorIDType, id: [u8; 20]) -> (r: OperatorID)
        ensures
            r.operator_id_type == operator_id_type,
            r.id == id,
    {
        OperatorID { operator_id_type, id }
    }

    /// Returns the type of the identifier.
    pub fn operator_id_type(&self) -> (r: OperatorIDType)
        ensures
            r == self.operator_id_type,
    {
        self.operator_id_type
    }

    /// Returns the raw identifier bytes.
    pub fn id(&self) -> (r: [u8; 20])
        ensures
            r == self.id,
    {
        self.id
    }

    /// The exact decoding relation of [`OperatorID::try_from_bytes`]: `r`
    /// is the result that decoding the bytes `value` yields.
    pub open spec fn spec_decode_rel(value: Seq<u8>, r: Result<OperatorID, Error>) -> bool {
        if value.len() != 24 {
            r == Err::<OperatorID, Error>(Error::InvalidDataLength)
        } else {
            r matches Ok(o) && o.operator_id_type == OperatorIDType::spec_decode(value[0]) && o.id@
                == value.subrange(1, 21)
        }
    }

    /// Decodes an operator identification message from a byte slice, which
    /// must be exactly 24 bytes long; the decode never fails on content,
    /// since every identifier type byte falls into a named code or band.
    pub fn try_from_bytes(value: &[u8]) -> (r: Result<OperatorID, Error>)
        ensures
            OperatorID::spec_decode_rel(value@, r),
    {
        if value.len() != 24 {
            return Err(Error::InvalidDataLength);
        }
        let operator_id_type = OperatorIDType::decode(value[0]);
        let id: [u8; 20] = crate::try_serialize::read_array(value, 1);
        Ok(OperatorID { operator_id_type, id })
    }
}

impl TrySerialize for OperatorID {
    /// The wire width: 24 bytes.
    open spec fn spec_len(&self) -> nat {
        24
    }

    /// Serialization writes the identifier type byte and the 20 identifier
    /// bytes; the last 3 bytes keep their previous contents.
    open spec fn spec_serialized(&self, prev_bytes: Seq<u8>, next_bytes: Seq<u8>) -> bool {
        &&& next_bytes.len() == 24
        &&& next_bytes[0] == self.operator_id_type.spec_encode()
        &&& next_bytes.subrange(1, 21) == self.id@
        &&& unchanged_outside(prev_bytes, next_bytes, 0, 21)
    }

    fn try_serialize(&self, buffer: &mut Vec<u8>) -> (r: Result<(), Error>) {
        if buffer.len() != 24 {
            return Err(Error::InvalidDataLength);
        }
        buffer.set(0, self.operator_id_type.encode());
        write_bytes(buffer, 1, self.id.as_slice());
        proof {
            assert(buffer@.subrange(1, 21) =~= self.id@);
        }
        Ok(())
    }
}

} // verus!
