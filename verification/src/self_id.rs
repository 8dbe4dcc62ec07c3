//! Self-identification message.
//!
//! An optional message whose free-text description lets observers of an
//! operation know its purpose.

mod description_type;

pub use description_type::DescriptionType;

use vstd::prelude::*;

verus! {

use crate::error::Error;
use crate::try_serialize::write_bytes;
use crate::try_serialize::TrySerialize;

/// Self-identification message: a description type and a free-form ASCII
/// text of up to 23 bytes.
///
/// The wire format is 24 bytes: the description type byte followed by the
/// 23 description bytes.
#[derive(Clone, Copy, PartialEq, Eq, Debug)]
pub struct SelfID {
    /// Type of the description.
    pub description_type: DescriptionType,
    /// The raw description bytes; should be decodable as ASCII.
    pub description: [u8; 23],
}

impl SelfID {
    /// Constructs a self-identification message.
    pub fn new(description_type: DescriptionType, description: [u8; 23]) -> (r: SelfID)
        ensures
            r.description_type == description_type,
            r.description == description,
    {
        SelfID { description_type, description }
    }

    /// Returns the type of the description.
    pub fn description_type(&self) -> (r: DescriptionType)
        ensures
            r == self.description_type,
    {
        self.description_type
    }

    /// Returns the raw description bytes.
    pub fn description(&self) -> (r: [u8; 23])
        ensures
            r == self.description,
    {
        self.description
    }

    /// The exact decoding relation of [`SelfID::try_from_bytes`]: `r` is
    /// the result that decoding the bytes `value` yields.
    pub open spec fn spec_decode_rel(value: Seq<u8>, r: Result<SelfID, Error>) -> bool {
        if value.len() != 24 {
            r == Err::<SelfID, Error>(Error::InvalidDataLength)
        } else {
            r matches Ok(s) && s.description_type == DescriptionType::spec_decode(value[0])
                && s.description@ == value.subrange(1, 24)
        }
    }

    /// Decodes a self-identification message from a byte slice, which must
    /// be exactly 24 bytes long; the decode never fails on content, since
    /// every description type byte falls into a named code or band.
    pub fn try_from_bytes(value: &[u8]) -> (r: Result<SelfID, Error>)
        ensures
            SelfID::spec_decode_rel(value@, r),
    {
        if value.len() != 24 {
            return Err(Error::InvalidDataLength);
        }
        let description_type = DescriptionType::decode(value[0]);
        let description: [u8; 23] = crate::try_serialize::read_array(value, 1);
        Ok(SelfID { description_type, description })
    }
}

impl TrySerialize for SelfID {
    /// The wire width: 24 bytes.
    open spec fn spec_len(&self) -> nat {
        24
    }

    /// Serialization writes the description type byte and the 23
    /// description bytes, overwriting the whole buffer.
    open spec fn spec_serialized(&self, prev_bytes: Seq<u8>, next_bytes: Seq<u8>) -> bool {
        &&& next_bytes.len() == 24
        &&& next_bytes[0] == self.description_type.spec_encode()
        &&& next_bytes.subrange(1, 24) == self.description@
    }

    fn try_serialize(&self, buffer: &mut Vec<u8>) -> (r: Result<(), Error>) {
        if buffer.len() != 24 {
            return Err(Error::InvalidDataLength);
        }
        buffer.set(0, self.description_type.encode());
        write_bytes(buffer, 1, self.description.as_slice());
        proof {
            assert(buffer@.subrange(1, 24) =~= self.description@);
        }
        Ok(())
    }
}

} // verus!
