//! Civil Aviation Authority registration identifier.

use vstd::prelude::*;

verus! {

use crate::error::Error;
use crate::text::after_first_byte;
use crate::text::prefix_until_byte;
use crate::try_serialize::copy_into_array;
use crate::try_serialize::write_bytes;
use crate::try_serialize::TrySerialize;
use vstd::string::StringSliceAdditionalSpecFns;

/// Whether `b` may appear in either part of a registration identifier: an
/// uppercase ASCII letter, a decimal digit, or the null filler.
pub open spec fn spec_is_registration_byte(b: u8) -> bool {
    ||| (65 <= b <= 90)
    ||| (48 <= b <= 57)
    ||| b == 0
}

/// Whether every byte of `s` may appear in a registration identifier part.
pub open spec fn spec_all_registration_bytes(s: Seq<u8>) -> bool {
    forall|i: int| 0 <= i < s.len() ==> spec_is_registration_byte(s[i])
}

/// The number of dot characters in `s`.
pub open spec fn spec_dot_count(s: Seq<u8>) -> int
    decreases s.len(),
{
    if s.len() == 0 {
        0
    } else {
        (if s[0] == 46 {
            1int
        } else {
            0int
        }) + spec_dot_count(s.subrange(1, s.len() as int))
    }
}

/// Whether a stored 20-byte registration identifier is well formed: every
/// byte is a registration character or a dot, and exactly one dot occurs.
pub open spec fn spec_registration_wf(s: Seq<u8>) -> bool {
    &&& forall|i: int| 0 <= i < s.len() ==> (spec_is_registration_byte(s[i]) || s[i] == 46)
    &&& spec_dot_count(s) == 1
}

/// The 20 stored bytes for a nationality mark and registration: the mark,
/// a dot, the identifier, and null fillers to the end.
pub open spec fn spec_registration_layout(mark: Seq<u8>, caa: Seq<u8>) -> Seq<u8> {
    mark + seq![46u8] + caa + Seq::new((19 - mark.len() - caa.len()) as nat, |i: int| 0u8)
}

/// Registration identifier issued by a Civil Aviation Authority: a
/// nationality mark assigned by the International Civil Aviation
/// Organization, a dot, and the authority's unique identifier, padded with
/// nulls to 20 bytes.
///
/// Both parts are restricted to uppercase ASCII, decimal digits, and
/// nulls.
#[derive(Clone, Copy, PartialEq, Eq, Debug)]
pub struct RegistrationID([u8; 20]);

impl RegistrationID {
    /// The 20 stored bytes.
    pub closed spec fn spec_bytes(self) -> Seq<u8> {
        self.0@
    }

    /// Constructs a registration identifier from a nationality mark and an
    /// authority identifier.
    ///
    /// Together they must leave room for the dot in 20 bytes (at most 19
    /// bytes), else [`Error::InvalidDataLength`]; both must consist of
    /// uppercase ASCII, digits, or nulls, else
    /// [`Error::InvalidRegistrationID`].
    pub fn try_new(nationality_mark: &str, caa_id: &str) -> (r: Result<RegistrationID, Error>)
        ensures
            ({
                let mark = nationality_mark.spec_bytes();
                let caa = caa_id.spec_bytes();
                if mark.len() + caa.len() > 19 {
                    r == Err::<RegistrationID, Error>(Error::InvalidDataLength)
                } else if !spec_all_registration_bytes(mark) || !spec_all_registration_bytes(caa) {
                    r == Err::<RegistrationID, Error>(Error::InvalidRegistrationID)
                } else {
                    r matches Ok(id) && id.spec_bytes() == spec_registration_layout(mark, caa)
                }
            }),
    {
        let mark: &[u8] = nationality_mark.as_bytes();
        let caa: &[u8] = caa_id.as_bytes();
        if mark.len() > 19 || caa.len() > 19 - mark.len() {
            return Err(Error::InvalidDataLength);
        }
        if !all_registration_bytes(mark) || !all_registration_bytes(caa) {
            return Err(Error::InvalidRegistrationID);
        }
        let mut bytes: [u8; 20] = [0u8; 20];
        copy_into_array(&mut bytes, 0, mark);
        bytes[mark.len()] = 46;
        copy_into_array(&mut bytes, mark.len() + 1, caa);
        proof {
            assert(bytes@ =~= spec_registration_layout(mark@, caa@));
        }
        Ok(RegistrationID(bytes))
    }

    /// Returns the nationality mark: the stored bytes before the dot.
    pub fn nationality_mark(&self) -> (r: Vec<u8>)
        ensures
            r@ == prefix_until_byte(self.spec_bytes(), 46),
    {
        crate::text::prefix_until(self.0.as_slice(), 46)
    }

    /// Returns the authority's identifier: the stored bytes after the dot,
    /// up to the first null filler.
    pub fn caa_id(&self) -> (r: Vec<u8>)
        ensures
            r@ == prefix_until_byte(after_first_byte(self.spec_bytes(), 46), 0),
    {
        let i: usize = crate::text::find_byte(self.0.as_slice(), 46);
        if i == 20 {
            let r = Vec::new();
            proof {
                crate::text::lemma_after_first_byte_absent(self.spec_bytes(), 46);
                assert(r@ =~= prefix_until_byte(after_first_byte(self.spec_bytes(), 46), 0));
            }
            return r;
        }
        let rest: &[u8] = vstd::slice::slice_subrange(self.0.as_slice(), i + 1, 20);
        proof {
            crate::text::lemma_after_first_byte(self.spec_bytes(), 46, i as int);
        }
        crate::text::prefix_until(rest, 0)
    }

    /// Decodes a registration identifier from a byte slice, which must be
    /// exactly 20 bytes long, consist of registration characters and dots,
    /// and hold exactly one dot.
    pub fn try_from_bytes(value: &[u8]) -> (r: Result<RegistrationID, Error>)
        ensures
            value@.len() != 20 ==> r == Err::<RegistrationID, Error>(Error::InvalidDataLength),
            value@.len() == 20 && !spec_registration_wf(value@) ==> r == Err::<
                RegistrationID,
                Error,
            >(Error::InvalidRegistrationID),
            value@.len() == 20 && spec_registration_wf(value@) ==> (r matches Ok(id)
                && id.spec_bytes() == value@),
    {
        if value.len() != 20 {
            return Err(Error::InvalidDataLength);
        }
        let n: usize = value.len();
        let mut dots: usize = 0;
        let mut i: usize = 0;
        while i < n
            invariant
                i <= n,
                n == value@.len(),
                n == 20,
                dots == spec_dot_count(value@.subrange(0, i as int)),
                dots <= i,
                forall|j: int|
                    0 <= j < i ==> (spec_is_registration_byte(value@[j]) || value@[j] == 46),
            decreases n - i,
        {
            let b: u8 = value[i];
            proof {
                lemma_dot_count_snoc(value@, i as int);
            }
            if b == 46 {
                dots = dots + 1;
            } else {
                let valid: bool = (65 <= b && b <= 90) || (48 <= b && b <= 57) || b == 0;
                if !valid {
                    return Err(Error::InvalidRegistrationID);
                }
            }
            i = i + 1;
        }
        proof {
            assert(value@.subrange(0, 20) =~= value@);
        }
        if dots != 1 {
            return Err(Error::InvalidRegistrationID);
        }
        Ok(RegistrationID(crate::try_serialize::read_array(value, 0)))
    }
}

impl TrySerialize for RegistrationID {
    /// The wire width: 20 bytes.
    open spec fn spec_len(&self) -> nat {
        20
    }

    /// Serialization overwrites the whole buffer with the stored bytes.
    open spec fn spec_serialized(&self, prev_bytes: Seq<u8>, next_bytes: Seq<u8>) -> bool {
        next_bytes == self.spec_bytes()
    }

    fn try_serialize(&self, buffer: &mut Vec<u8>) -> (r: Result<(), Error>) {
        if buffer.len() != 20 {
            return Err(Error::InvalidDataLength);
        }
        write_bytes(buffer, 0, self.0.as_slice());
        proof {
            assert(buffer@ =~= self.spec_bytes());
        }
        Ok(())
    }
}

/// Extending a prefix by one byte adds one to its dot count exactly when
/// that byte is a dot.
proof fn lemma_dot_count_snoc(s: Seq<u8>, i: int)
    requires
        0 <= i < s.len(),
    ensures
        spec_dot_count(s.subrange(0, i + 1)) == spec_dot_count(s.subrange(0, i)) + (if s[i] == 46 {
            1int
        } else {
            0int
        }),
    decreases i,
{
    let longer = s.subrange(0, i + 1);
    let shorter = s.subrange(0, i);
    if i == 0 {
        assert(longer.subrange(1, longer.len() as int) =~= Seq::<u8>::empty());
        assert(spec_dot_count(longer.subrange(1, longer.len() as int)) == 0);
        assert(spec_dot_count(shorter) == 0);
    } else {
        let tail = s.subrange(1, s.len() as int);
        lemma_dot_count_snoc(tail, i - 1);
        assert(longer.subrange(1, longer.len() as int) =~= tail.subrange(0, i));
        assert(shorter.subrange(1, shorter.len() as int) =~= tail.subrange(0, i - 1));
        assert(spec_dot_count(longer) == (if longer[0] == 46 {
            1int
        } else {
            0int
        }) + spec_dot_count(tail.subrange(0, i)));
        assert(spec_dot_count(shorter) == (if shorter[0] == 46 {
            1int
        } else {
            0int
        }) + spec_dot_count(tail.subrange(0, i - 1)));
        assert(tail[i - 1] == s[i]);
    }
}

/// Reports whether every byte of `data` may appear in a registration
/// identifier part.
fn all_registration_bytes(data: &[u8]) -> (r: bool)
    ensures
        r == spec_all_registration_bytes(data@),
{
    let n: usize = data.len();
    let mut i: usize = 0;
    while i < n
        invariant
            i <= n,
            n == data@.len(),
            forall|j: int| 0 <= j < i ==> spec_is_registration_byte(data@[j]),
        decreases n - i,
    {
        let b: u8 = data[i];
        let valid: bool = (65 <= b && b <= 90) || (48 <= b && b <= 57) || b == 0;
        if !valid {
            return false;
        }
        i = i + 1;
    }
    true
}

} // verus!
