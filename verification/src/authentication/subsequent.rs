//! Subsequent authentication page.

use vstd::prelude::*;

verus! {

use crate::authentication::authentication_type::AuthenticationType;
use crate::error::Error;
use crate::try_serialize::write_bytes;
use crate::try_serialize::TrySerialize;

/// Subsequent authentication page: the authentication type, this page's
/// number, and 23 more data bytes.
///
/// The wire format is 24 bytes: the type in the high nibble of the first
/// byte, the page number in its low nibble, and the data in the remaining
/// 23 bytes.
#[derive(Clone, Copy, PartialEq, Eq, Debug)]
pub struct Subsequent {
    authentication_type: AuthenticationType,
    page_number: usize,
    data: [u8; 23],
}

impl Subsequent {
    /// The page number fits its nibble; both constructors establish this.
    #[verifier::type_invariant]
    spec fn inv(self) -> bool {
        self.page_number <= 15
    }

    /// The authentication type of the page.
    pub closed spec fn spec_authentication_type(self) -> AuthenticationType {
        self.authentication_type
    }

    /// The page number.
    pub closed spec fn spec_page_number(self) -> usize {
        self.page_number
    }

    /// The 23 data bytes of the page.
    pub closed spec fn spec_data(self) -> Seq<u8> {
        self.data@
    }

    /// The exact decoding relation of [`Subsequent::try_from_bytes`]: `r`
    /// is the result that decoding the bytes `value` yields.
    pub open spec fn spec_decode_rel(value: Seq<u8>, r: Result<Subsequent, Error>) -> bool {
        if value.len() != 24 {
            r == Err::<Subsequent, Error>(Error::InvalidDataLength)
        } else {
            match AuthenticationType::spec_decode(value[0] / 16) {
                Err(e) => r == Err::<Subsequent, Error>(e),
                Ok(t) => r matches Ok(s) && s.spec_authentication_type() == t
                    && s.spec_page_number() == value[0] % 16 && s.spec_data() == value.subrange(
                    1,
                    24,
                ),
            }
        }
    }

    /// Constructs a subsequent page.
    ///
    /// The page number must be at most 15, else [`Error::InvalidInteger`].
    pub fn try_new(
        authentication_type: AuthenticationType,
        page_number: usize,
        data: [u8; 23],
    ) -> (r: Result<Subsequent, Error>)
        ensures
            page_number > 15 ==> r == Err::<Subsequent, Error>(Error::InvalidInteger),
            page_number <= 15 ==> (r matches Ok(s) && s.spec_authentication_type()
                == authentication_type && s.spec_page_number() == page_number && s.spec_data()
                == data@),
    {
        if page_number > 15 {
            return Err(Error::InvalidInteger);
        }
        Ok(Subsequent { authentication_type, page_number, data })
    }

    /// Returns the authentication type.
    pub fn authentication_type(&self) -> (r: AuthenticationType)
        ensures
            r == self.spec_authentication_type(),
    {
        self.authentication_type
    }

    /// Returns the page number; 1 through 15 on a well-formed transfer.
    pub fn page_number(&self) -> (r: usize)
        ensures
            r == self.spec_page_number(),
    {
        self.page_number
    }

    /// Returns the 23 data bytes.
    pub fn data(&self) -> (r: [u8; 23])
        ensures
            r@ == self.spec_data(),
    {
        self.data
    }

    /// Decodes a subsequent page from a byte slice, which must be exactly
    /// 24 bytes long.
    pub fn try_from_bytes(value: &[u8]) -> (r: Result<Subsequent, Error>)
        ensures
            Subsequent::spec_decode_rel(value@, r),
    {
        if value.len() != 24 {
            return Err(Error::InvalidDataLength);
        }
        let page_number: usize = (value[0] % 16) as usize;
        let authentication_type = match AuthenticationType::decode(value[0] / 16) {
            Ok(t) => t,
            Err(e) => { return Err(e) },
        };
        let data: [u8; 23] = crate::try_serialize::read_array(value, 1);
        Ok(Subsequent { authentication_type, page_number, data })
    }
}

impl TrySerialize for Subsequent {
    /// The wire width: 24 bytes.
    open spec fn spec_len(&self) -> nat {
        24
    }

    /// Serialization writes the type and page-number nibbles and the data
    /// bytes, overwriting the whole buffer.
    open spec fn spec_serialized(&self, prev_bytes: Seq<u8>, next_bytes: Seq<u8>) -> bool {
        &&& next_bytes.len() == 24
        &&& next_bytes[0] == self.spec_authentication_type().spec_encode() * 16
            + self.spec_page_number()
        &&& next_bytes.subrange(1, 24) == self.spec_data()
    }

    fn try_serialize(&self, buffer: &mut Vec<u8>) -> (r: Result<(), Error>) {
        if buffer.len() != 24 {
            return Err(Error::InvalidDataLength);
        }
        proof {
            use_type_invariant(self);
        }
        buffer.set(0, self.authentication_type.encode() * 16 + self.page_number as u8);
        write_bytes(buffer, 1, self.data.as_slice());
        proof {
            assert(buffer@.subrange(1, 24) =~= self.spec_data());
        }
        Ok(())
    }
}

} // verus!
