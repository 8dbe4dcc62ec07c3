//! Manufacturer serial number.

use vstd::prelude::*;

verus! {

use crate::error::Error;
use crate::text::prefix_until_byte;
use crate::try_serialize::copy_into_array;
use crate::try_serialize::write_bytes;
use crate::try_serialize::TrySerialize;
use vstd::string::StringSliceAdditionalSpecFns;

/// Whether `b` may appear in a serial number: an uppercase ASCII letter
/// other than `O` and `I`, a decimal digit, or the null filler.
pub open spec fn spec_is_serial_byte(b: u8) -> bool {
    ||| (65 <= b <= 90 && b != 79 && b != 73)
    ||| (48 <= b <= 57)
    ||| b == 0
}

/// Whether `b` is an ASCII hexadecimal digit, as the length marker of a
/// serial number must be.
pub open spec fn spec_is_hex_digit_byte(b: u8) -> bool {
    ||| (48 <= b <= 57)
    ||| (65 <= b <= 70)
    ||| (97 <= b <= 102)
}

/// Whether every byte of `s` may appear in a serial number.
pub open spec fn spec_all_serial_bytes(s: Seq<u8>) -> bool {
    forall|i: int| 0 <= i < s.len() ==> spec_is_serial_byte(s[i])
}

/// The ASCII length marker stored for a serial of `len` bytes: `1` through
/// `9` for short serials and `A` through `F` for 11 through 15; a length of
/// exactly 10 yields the colon that follows `9`.
pub open spec fn spec_serial_length_marker(len: int) -> u8 {
    if len <= 10 {
        (len + 48) as u8
    } else {
        (len + 55) as u8
    }
}

/// The 20 stored bytes for a manufacturer code and serial: the 4-byte code,
/// the length marker, the serial, and null fillers to the end.
pub open spec fn spec_serial_layout(code: Seq<u8>, serial: Seq<u8>) -> Seq<u8> {
    code + seq![spec_serial_length_marker(serial.len() as int)] + serial + Seq::new(
        (15 - serial.len()) as nat,
        |i: int| 0u8,
    )
}

/// Serial number compliant with ANSI/CTA-2063-A: a 4-character manufacturer
/// code, an ASCII length marker, and a manufacturer serial of 1 through 15
/// characters, padded with nulls to 20 bytes.
///
/// Both parts are restricted to uppercase ASCII (except `O` and `I`),
/// decimal digits, and nulls.
#[derive(Clone, Copy, PartialEq, Eq, Debug)]
pub struct SerialNumber([u8; 20]);

impl SerialNumber {
    /// The 20 stored bytes.
    pub closed spec fn spec_bytes(self) -> Seq<u8> {
        self.0@
    }

    /// Constructs a serial number from a manufacturer code and serial.
    ///
    /// The code must be exactly 4 bytes and the serial 1 through 15 bytes,
    /// else [`Error::InvalidDataLength`]; both must consist of uppercase
    /// ASCII (except `O` and `I`), digits, or nulls, else
    /// [`Error::InvalidSerialNumber`].
    pub fn try_new(mfr_code: &str, mfr_serial: &str) -> (r: Result<SerialNumber, Error>)
        ensures
            ({
                let code = mfr_code.spec_bytes();
                let serial = mfr_serial.spec_bytes();
                if code.len() != 4 || serial.len() < 1 || serial.len() > 15 {
                    r == Err::<SerialNumber, Error>(Error::InvalidDataLength)
                } else if !spec_all_serial_bytes(code) || !spec_all_serial_bytes(serial) {
                    r == Err::<SerialNumber, Error>(Error::InvalidSerialNumber)
                } else {
                    r matches Ok(s) && s.spec_bytes() == spec_serial_layout(code, serial)
                }
            }),
    {
        let code: &[u8] = mfr_code.as_bytes();
        let serial: &[u8] = mfr_serial.as_bytes();
        if code.len() != 4 || serial.len() < 1 || serial.len() > 15 {
            return Err(Error::InvalidDataLength);
        }
        if !all_serial_bytes(code) || !all_serial_bytes(serial) {
            return Err(Error::InvalidSerialNumber);
        }
        let marker: u8 = if serial.len() <= 10 {
            serial.len() as u8 + 48
        } else {
            serial.len() as u8 + 55
        };
        let mut bytes: [u8; 20] = [0u8; 20];
        copy_into_array(&mut bytes, 0, code);
        bytes[4] = marker;
        copy_into_array(&mut bytes, 5, serial);
        proof {
            assert(bytes@ =~= spec_serial_layout(code@, serial@));
        }
        Ok(SerialNumber(bytes))
    }

    /// Returns the manufacturer's code: the first 4 stored bytes.
    ///
    /// The code is issued to manufacturers globally by the International
    /// Civil Aviation Organization.
    pub fn mfr_code(&self) -> (r: Vec<u8>)
        ensures
            r@ == self.spec_bytes().subrange(0, 4),
    {
        vstd::slice::slice_to_vec(vstd::slice::slice_subrange(self.0.as_slice(), 0, 4))
    }

    /// Returns the manufacturer's serial: the stored bytes after the length
    /// marker, up to the first null filler.
    pub fn mfr_serial(&self) -> (r: Vec<u8>)
        ensures
            r@ == prefix_until_byte(self.spec_bytes().subrange(5, 20), 0),
    {
        crate::text::prefix_until(vstd::slice::slice_subrange(self.0.as_slice(), 5, 20), 0)
    }

    /// Decodes a serial number from a byte slice, which must be exactly 20
    /// bytes long, consist of serial-number characters throughout, and hold
    /// an ASCII hexadecimal digit as its length marker.
    pub fn try_from_bytes(value: &[u8]) -> (r: Result<SerialNumber, Error>)
        ensures
            value@.len() != 20 ==> r == Err::<SerialNumber, Error>(Error::InvalidDataLength),
            value@.len() == 20 && !spec_all_serial_bytes(value@) ==> r == Err::<
                SerialNumber,
                Error,
            >(Error::InvalidSerialNumber),
            value@.len() == 20 && spec_all_serial_bytes(value@) && !spec_is_hex_digit_byte(
                value@[4],
            ) ==> r == Err::<SerialNumber, Error>(Error::InvalidSerialNumber),
            value@.len() == 20 && spec_all_serial_bytes(value@) && spec_is_hex_digit_byte(
                value@[4],
            ) ==> (r matches Ok(s) && s.spec_bytes() == value@),
    {
        if value.len() != 20 {
            return Err(Error::InvalidDataLength);
        }
        if !all_serial_bytes(value) {
            return Err(Error::InvalidSerialNumber);
        }
        let marker: u8 = value[4];
        let marker_is_hex: bool = (48 <= marker && marker <= 57) || (65 <= marker && marker <= 70)
            || (97 <= marker && marker <= 102);
        if !marker_is_hex {
            return Err(Error::InvalidSerialNumber);
        }
        Ok(SerialNumber(crate::try_serialize::read_array(value, 0)))
    }
}

impl TrySerialize for SerialNumber {
    /// The wire width: 20 bytes.
    open spec fn spec_len(&self) -> nat {
        20
    }

    /// Serialization overwrites the whole buffer with the stored bytes.
    open spec fn spec_serialized(&self, prev_bytes: Seq<u8>, next_bytes: Seq<u8>) -> bool {
        next_bytes == self.spec_bytes()
    }

    fn try_serialize(&self, buffer: &mut Vec<u8>) -> (r: Result<(), Error>) {
        if buffer.len() != 20 {
            return Err(Error::InvalidDataLength);
        }
        write_bytes(buffer, 0, self.0.as_slice());
        proof {
            assert(buffer@ =~= self.spec_bytes());
        }
        Ok(())
    }
}

/// Reports whether every byte of `data` may appear in a serial number.
fn all_serial_bytes(data: &[u8]) -> (r: bool)
    ensures
        r == spec_all_serial_bytes(data@),
{
    let n: usize = data.len();
    let mut i: usize = 0;
    while i < n
        invariant
            i <= n,
            n == data@.len(),
            forall|j: int| 0 <= j < i ==> spec_is_serial_byte(data@[j]),
        decreases n - i,
    {
        let b: u8 = data[i];
        let valid: bool = ((65 <= b && b <= 90) && b != 79 && b != 73) || (48 <= b && b <= 57) || b
            == 0;
        if !valid {
            return false;
        }
        i = i + 1;
    }
    true
}

} // verus!
