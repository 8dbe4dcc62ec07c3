//! Authentication messages and their pagination.
//!
//! Authentication data larger than one wire message spans up to 16 pages:
//! an [`Initial`] page followed by up to 15 [`Subsequent`] pages, 17 + 23
//! x 15 = 362 bytes at most in theory, capped at 255 by the total-length
//! byte of the initial page.  Reassembly (ordering pages, concatenating
//! their data, matching the total length) is the caller's concern; this
//! module types and round-trips each page alone.

mod authentication_type;
mod initial;
mod subsequent;

pub use authentication_type::AuthenticationType;
pub use initial::Initial;
pub use subsequent::Subsequent;

use vstd::prelude::*;

verus! {

use crate::error::Error;
use crate::try_serialize::TrySerialize;

/// Authentication message: one page of authentication data.
///
/// The page kind is selected solely by the low nibble of the first wire
/// byte: zero means an initial page, anything else a subsequent page
/// carrying that nibble as its page number.
#[derive(Clone, Copy, PartialEq, Eq, Debug)]
pub enum Authentication {
    /// The initial page.
    Initial(Initial),
    /// One of the up to 15 pages that follow the initial page.
    Subsequent(Subsequent),
}

impl Authentication {
    /// The exact decoding relation of [`Authentication::try_from_bytes`]:
    /// `r` is the result that decoding the bytes `value` yields.
    pub open spec fn spec_decode_rel(value: Seq<u8>, r: Result<Authentication, Error>) -> bool {
        if value.len() != 24 {
            r == Err::<Authentication, Error>(Error::InvalidDataLength)
        } else if value[0] % 16 == 0 {
            match r {
                Ok(Authentication::Initial(i)) => Initial::spec_decode_rel(value, Ok(i)),
                Ok(Authentication::Subsequent(_)) => false,
                Err(e) => Initial::spec_decode_rel(value, Err::<Initial, Error>(e)),
            }
        } else {
            match r {
                Ok(Authentication::Subsequent(s)) => Subsequent::spec_decode_rel(value, Ok(s)),
                Ok(Authentication::Initial(_)) => false,
                Err(e) => Subsequent::spec_decode_rel(value, Err::<Subsequent, Error>(e)),
            }
        }
    }

    /// Decodes an authentication page from a byte slice, which must be
    /// exactly 24 bytes long; the low nibble of the first byte selects the
    /// page kind.
    pub fn try_from_bytes(value: &[u8]) -> (r: Result<Authentication, Error>)
        ensures
            Authentication::spec_decode_rel(value@, r),
    {
        if value.len() != 24 {
            return Err(Error::InvalidDataLength);
        }
        let page_number: u8 = value[0] % 16;
        if page_number == 0 {
            match Initial::try_from_bytes(value) {
                Ok(i) => Ok(Authentication::Initial(i)),
                Err(e) => Err(e),
            }
        } else {
            match Subsequent::try_from_bytes(value) {
                Ok(s) => Ok(Authentication::Subsequent(s)),
                Err(e) => Err(e),
            }
        }
    }
}

impl TrySerialize for Authentication {
    /// The wire width: 24 bytes.
    open spec fn spec_len(&self) -> nat {
        24
    }

    /// Serialization writes the page it wraps.
    open spec fn spec_serialized(&self, prev_bytes: Seq<u8>, next_bytes: Seq<u8>) -> bool {
        match *self {
            Authentication::Initial(i) => i.spec_serialized(prev_bytes, next_bytes),
            Authentication::Subsequent(s) => s.spec_serialized(prev_bytes, next_bytes),
        }
    }

    fn try_serialize(&self, buffer: &mut Vec<u8>) -> (r: Result<(), Error>) {
        if buffer.len() != 24 {
            return Err(Error::InvalidDataLength);
        }
        match self {
            Authentication::Initial(i) => i.try_serialize(buffer),
            Authentication::Subsequent(s) => s.try_serialize(buffer),
        }
    }
}

} // verus!
