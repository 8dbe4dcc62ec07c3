//! Timestamp codec for location messages.

use vstd::prelude::*;

verus! {

/// Timestamp for location messages: tenths of a second since the start of
/// the current hour.
///
/// Differs from [`crate::system::Timestamp`], which counts seconds since a
/// fixed epoch.  The wire format is an unsigned 16-bit word; 0xFFFF stands
/// for an unknown time and anything above 36,000 (one hour) is invalid.
#[derive(Clone, Copy, PartialEq, Eq, Structural, Debug)]
pub enum Timestamp {
    /// Invalid value (greater than 36,000).
    Invalid,
    /// No value.
    NoValue,
    /// Unknown value (indicated by 0xFFFF).
    Unknown,
    /// Known value, in tenths of a second.
    Known(u16),
}

impl Timestamp {
    /// Raw code that stands for [`Timestamp::Unknown`].
    pub const UNKNOWN_CODE: u16 = 0xffff;

    /// Largest legal number of tenths of a second since the hour.
    pub const MAX: u16 = 36_000;

    /// What decoding a raw word yields: the unknown code maps to unknown,
    /// anything above the maximum to invalid, anything else to itself.
    pub open spec fn spec_decode(raw: u16) -> Timestamp {
        if raw == 0xffff {
            Timestamp::Unknown
        } else if raw > 36_000 {
            Timestamp::Invalid
        } else {
            Timestamp::Known(raw)
        }
    }

    /// The raw word reported for a value.  A known time above the maximum is
    /// clamped down to the invalid code 36,001 - unless it is the unknown
    /// code itself, which is reported unchanged.
    pub open spec fn spec_timestamp(self) -> u16 {
        match self {
            Timestamp::NoValue => 0u16,
            Timestamp::Unknown => 0xffffu16,
            Timestamp::Invalid => 36_001u16,
            Timestamp::Known(n) => if n > 36_000 && n < 0xffff {
                36_001u16
            } else {
                n
            },
        }
    }

    /// What encoding yields: the reported raw word itself.
    pub open spec fn spec_encode(self) -> u16 {
        self.spec_timestamp()
    }

    /// Decodes a raw 16-bit word.
    pub fn decode(raw: u16) -> (r: Timestamp)
        ensures
            r == Timestamp::spec_decode(raw),
    {
        if raw == 0xffff {
            Timestamp::Unknown
        } else if raw > 36_000 {
            Timestamp::Invalid
        } else {
            Timestamp::Known(raw)
        }
    }

    /// Returns the raw reading: a known time (clamped down to the invalid
    /// code if out of range), 0 for no value, 0xFFFF for unknown, and 36,001
    /// for invalid.
    pub fn timestamp(&self) -> (r: u16)
        ensures
            r == self.spec_timestamp(),
    {
        match self {
            Timestamp::NoValue => 0,
            Timestamp::Unknown => 0xffff,
            Timestamp::Invalid => 36_001,
            Timestamp::Known(n) => {
                if *n > 36_000 && *n < 0xffff {
                    36_001
                } else {
                    *n
                }
            },
        }
    }

    /// Encodes into a raw 16-bit word.
    pub fn encode(&self) -> (r: u16)
        ensures
            r == self.spec_encode(),
    {
        self.timestamp()
    }

    /// Round trip in both directions: every known time in the legal range
    /// survives an encode followed by a decode, and every raw word in the
    /// legal range, or the unknown code, survives a decode followed by an
    /// encode.
    ///
    /// A raw word above the legal range other than the unknown code decodes
    /// to [`Timestamp::Invalid`], which encodes back to 36,001.
    pub proof fn lemma_round_trip(n: u16, raw: u16)
        ensures
            n <= 36_000 ==> Timestamp::spec_decode(Timestamp::Known(n).spec_encode())
                == Timestamp::Known(n),
            raw <= 36_000 || raw == 0xffff ==> Timestamp::spec_decode(raw).spec_encode() == raw,
    {
    }

    /// Encoding clamps: a known time above the legal range (other than the
    /// unknown code) encodes to the invalid code 36,001.
    pub proof fn lemma_encode_clamps(n: u16)
        ensures
            n > 36_000 && n < 0xffff ==> Timestamp::Known(n).spec_encode() == 36_001,
    {
    }
}

} // verus!
