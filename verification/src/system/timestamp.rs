//! Timestamp for system and authentication messages.

use vstd::prelude::*;

verus! {

/// Timestamp for system and authentication messages: seconds since the
/// epoch 2019-01-01T00:00:00Z.
///
/// Differs from [`crate::location::Timestamp`], which counts tenths of a
/// second since the hour.  The wire format is an unsigned 32-bit word with
/// no sentinel; it is a plain counter.  Conversion to and from Unix time
/// goes through the fixed offset [`Timestamp::UNIX_TIMESTAMP_OFFSET`].
#[derive(Clone, Copy, PartialEq, Eq, Structural, Debug)]
pub struct Timestamp(u32);

impl Timestamp {
    /// Seconds between the Unix epoch and this type's epoch.
    pub const UNIX_TIMESTAMP_OFFSET: u64 = 1_546_300_800;

    /// The number of seconds since the epoch that a value holds.
    pub closed spec fn spec_system_time(self) -> u32 {
        self.0
    }

    /// Constructs a timestamp from seconds since the 2019 epoch (not the
    /// Unix epoch).
    pub fn new(timestamp: u32) -> (r: Timestamp)
        ensures
            r.spec_system_time() == timestamp,
    {
        Timestamp(timestamp)
    }

    /// Returns the number of seconds since the 2019 epoch.
    pub fn system_time(&self) -> (r: u32)
        ensures
            r == self.spec_system_time(),
    {
        self.0
    }

    /// Returns the Unix time, 64 bits wide to avoid the 32-bit rollover.
    pub fn unix_time(&self) -> (r: u64)
        ensures
            r == self.spec_system_time() + 1_546_300_800,
    {
        self.0 as u64 + 1_546_300_800
    }

    /// Converts Unix time to a timestamp.
    ///
    /// The time must not precede the 2019 epoch.  The difference is reduced
    /// to the 32-bit counter; it fits without reduction for all times
    /// through the year 2155.
    pub fn from_unix_time(unix_time: u64) -> (r: Timestamp)
        requires
            unix_time >= 1_546_300_800,
        ensures
            r.spec_system_time() == (unix_time - 1_546_300_800) % 0x1_0000_0000,
    {
        Timestamp(((unix_time - 1_546_300_800) % 0x1_0000_0000) as u32)
    }

    /// Decodes a raw 32-bit word: the counter itself; never fails.
    pub fn decode(raw: u32) -> (r: Timestamp)
        ensures
            r.spec_system_time() == raw,
    {
        Timestamp(raw)
    }

    /// Encodes into a raw 32-bit word: the counter itself.
    pub fn encode(&self) -> (r: u32)
        ensures
            r == self.spec_system_time(),
    {
        self.0
    }

    /// Round trip between the two epochs: converting a timestamp to Unix
    /// time and back yields the same timestamp.
    pub proof fn lemma_unix_round_trip(t: Timestamp)
        ensures
            t.spec_system_time() + 1_546_300_800 - 1_546_300_800 == t.spec_system_time(),
    {
    }

    /// Two timestamps that hold the same counter are the same value.
    pub proof fn lemma_injective(a: Timestamp, b: Timestamp)
        ensures
            a.spec_system_time() == b.spec_system_time() ==> a == b,
    {
    }
}

} // verus!
