//! Initial authentication page.

use vstd::prelude::*;

verus! {

use crate::authentication::authentication_type::AuthenticationType;
use crate::error::Error;
use crate::system::Timestamp;
use crate::try_serialize::write_bytes;
use crate::try_serialize::TrySerialize;
use vstd::bytes::spec_u32_from_le_bytes;
use vstd::bytes::spec_u32_to_le_bytes;
use vstd::bytes::u32_from_le_bytes;
use vstd::bytes::u32_to_le_bytes;

/// Initial authentication page: the authentication type, the index of the
/// last page, the total byte length of the authentication data across all
/// pages, a 32-bit timestamp, and the first 17 data bytes.
///
/// The wire format is 24 bytes: the type in the high nibble of the first
/// byte (its low nibble, the page number, is zero), the last-page index in
/// the low nibble of the second byte, the total length in the third, the
/// timestamp in the next four, and the data in the remaining 17.
#[derive(Clone, Copy, PartialEq, Eq, Debug)]
pub struct Initial {
    authentication_type: AuthenticationType,
    last_page_index: usize,
    total_length: usize,
    timestamp: Timestamp,
    data: [u8; 17],
}

impl Initial {
    /// The last-page index fits its nibble and the total length its byte;
    /// both constructors establish this.
    #[verifier::type_invariant]
    spec fn inv(self) -> bool {
        self.last_page_index <= 15 && self.total_length <= 255
    }

    /// The authentication type of the page.
    pub closed spec fn spec_authentication_type(self) -> AuthenticationType {
        self.authentication_type
    }

    /// The index of the last page of the transfer.
    pub closed spec fn spec_last_page_index(self) -> usize {
        self.last_page_index
    }

    /// The total byte length of the authentication data.
    pub closed spec fn spec_total_length(self) -> usize {
        self.total_length
    }

    /// The timestamp of the page.
    pub closed spec fn spec_timestamp(self) -> Timestamp {
        self.timestamp
    }

    /// The 17 data bytes of the page.
    pub closed spec fn spec_data(self) -> Seq<u8> {
        self.data@
    }

    /// The exact decoding relation of [`Initial::try_from_bytes`]: `r` is
    /// the result that decoding the bytes `value` yields.
    pub open spec fn spec_decode_rel(value: Seq<u8>, r: Result<Initial, Error>) -> bool {
        if value.len() != 24 {
            r == Err::<Initial, Error>(Error::InvalidDataLength)
        } else {
            match AuthenticationType::spec_decode(value[0] / 16) {
                Err(e) => r == Err::<Initial, Error>(e),
                Ok(t) => r matches Ok(i) && i.spec_authentication_type() == t
                    && i.spec_last_page_index() == value[1] % 16 && i.spec_total_length()
                    == value[2] && i.spec_timestamp().spec_system_time() == spec_u32_from_le_bytes(
                    value.subrange(3, 7),
                ) && i.spec_data() == value.subrange(7, 24),
            }
        }
    }

    /// Constructs an initial page.
    ///
    /// The last-page index must be at most 15 and the total length at most
    /// 255, else [`Error::InvalidInteger`].
    pub fn try_new(
        authentication_type: AuthenticationType,
        last_page_index: usize,
        total_length: usize,
        timestamp: Timestamp,
        data: [u8; 17],
    ) -> (r: Result<Initial, Error>)
        ensures
            last_page_index > 15 || total_length > 255 ==> r == Err::<Initial, Error>(
                Error::InvalidInteger,
            ),
            last_page_index <= 15 && total_length <= 255 ==> (r matches Ok(i)
                && i.spec_authentication_type() == authentication_type && i.spec_last_page_index()
                == last_page_index && i.spec_total_length() == total_length && i.spec_timestamp()
                == timestamp && i.spec_data() == data@),
    {
        if last_page_index > 15 || total_length > 255 {
            return Err(Error::InvalidInteger);
        }
        Ok(Initial { authentication_type, last_page_index, total_length, timestamp, data })
    }

    /// Returns the authentication type.
    pub fn authentication_type(&self) -> (r: AuthenticationType)
        ensures
            r == self.spec_authentication_type(),
    {
        self.authentication_type
    }

    /// Returns the page number, which is always zero for an initial page.
    pub fn page_number(&self) -> (r: usize)
        ensures
            r == 0,
    {
        0
    }

    /// Returns the index of the last page of the transfer; at most 15.
    pub fn last_page_index(&self) -> (r: usize)
        ensures
            r == self.spec_last_page_index(),
    {
        self.last_page_index
    }

    /// Returns the total byte length of the authentication data across the
    /// whole transfer; at most 255.
    pub fn total_length(&self) -> (r: usize)
        ensures
            r == self.spec_total_length(),
    {
        self.total_length
    }

    /// Returns the timestamp.
    pub fn timestamp(&self) -> (r: Timestamp)
        ensures
            r == self.spec_timestamp(),
    {
        self.timestamp
    }

    /// Returns the 17 data bytes.
    pub fn data(&self) -> (r: [u8; 17])
        ensures
            r@ == self.spec_data(),
    {
        self.data
    }

    /// Decodes an initial page from a byte slice, which must be exactly 24
    /// bytes long.
    pub fn try_from_bytes(value: &[u8]) -> (r: Result<Initial, Error>)
        ensures
            Initial::spec_decode_rel(value@, r),
    {
        if value.len() != 24 {
            return Err(Error::InvalidDataLength);
        }
        let authentication_type = match AuthenticationType::decode(value[0] / 16) {
            Ok(t) => t,
            Err(e) => { return Err(e) },
        };
        let last_page_index: usize = (value[1] % 16) as usize;
        let total_length: usize = value[2] as usize;
        let timestamp = Timestamp::decode(
            u32_from_le_bytes(vstd::slice::slice_subrange(value, 3, 7)),
        );
        let data: [u8; 17] = crate::try_serialize::read_array(value, 7);
        Ok(Initial { authentication_type, last_page_index, total_length, timestamp, data })
    }
}

impl TrySerialize for Initial {
    /// The wire width: 24 bytes.
    open spec fn spec_len(&self) -> nat {
        24
    }

    /// Serialization writes the type nibble, the last-page index, the
    /// total length, the little-endian timestamp, and the data bytes,
    /// overwriting the whole buffer.
    open spec fn spec_serialized(&self, prev_bytes: Seq<u8>, next_bytes: Seq<u8>) -> bool {
        &&& next_bytes.len() == 24
        &&& next_bytes[0] == self.spec_authentication_type().spec_encode() * 16
        &&& next_bytes[1] == self.spec_last_page_index() as u8
        &&& next_bytes[2] == self.spec_total_length() as u8
        &&& next_bytes.subrange(3, 7) == spec_u32_to_le_bytes(
            self.spec_timestamp().spec_system_time(),
        )
        &&& next_bytes.subrange(7, 24) == self.spec_data()
    }

    fn try_serialize(&self, buffer: &mut Vec<u8>) -> (r: Result<(), Error>) {
        if buffer.len() != 24 {
            return Err(Error::InvalidDataLength);
        }
        proof {
            use_type_invariant(self);
        }
        buffer.set(0, self.authentication_type.encode() * 16);
        buffer.set(1, self.last_page_index as u8);
        buffer.set(2, self.total_length as u8);
        let ts: Vec<u8> = u32_to_le_bytes(self.timestamp.encode());
        write_bytes(buffer, 3, ts.as_slice());
        write_bytes(buffer, 7, self.data.as_slice());
        proof {
            assert(buffer@.subrange(3, 7) =~= spec_u32_to_le_bytes(
                self.spec_timestamp().spec_system_time(),
            ));
            assert(buffer@.subrange(7, 24) =~= self.spec_data());
        }
        Ok(())
    }
}

} // verus!
