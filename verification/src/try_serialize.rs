//! Serialization trait shared by every message and payload type.
//!
//! Each implementation states, as a relation between the buffer before and
//! after the call, exactly which bytes it writes; serialization succeeds if
//! and only if the buffer has exactly the implementation's required length.

use vstd::prelude::*;

verus! {

use crate::error::Error;

/// Two byte sequences of equal length that agree everywhere outside the
/// index range `lo` through `hi` (exclusive).
pub open spec fn unchanged_outside(prev_bytes: Seq<u8>, next_bytes: Seq<u8>, lo: int, hi: int) -> bool {
    &&& next_bytes.len() == prev_bytes.len()
    &&& forall|i: int|
        0 <= i < prev_bytes.len() && !(lo <= i < hi) ==> next_bytes[i] == prev_bytes[i]
}

/// Tries to serialize a value into a caller-owned byte buffer.
///
/// Each implementor defines its exact wire length and, as a relation over
/// the buffer contents before and after the call, the exact bytes it
/// writes.
pub trait TrySerialize {
    /// The exact buffer length serialization demands.
    spec fn spec_len(&self) -> nat;

    /// The bytes a successful serialization leaves behind: `next_bytes` is
    /// the buffer after the call, `prev_bytes` (of the same length) the
    /// buffer before it.  Positions the serializer does not write keep
    /// their previous byte.
    spec fn spec_serialized(&self, prev_bytes: Seq<u8>, next_bytes: Seq<u8>) -> bool;

    /// Serializes the value into `buffer`, which must be exactly
    /// [`spec_len`](Self::spec_len) bytes long; a buffer of any other
    /// length is left untouched and rejected with
    /// [`Error::InvalidDataLength`].
    fn try_serialize(&self, buffer: &mut Vec<u8>) -> (r: Result<(), Error>)
        ensures
            old(buffer)@.len() == self.spec_len() ==> r == Ok::<(), Error>(())
                && final(buffer)@.len() == old(buffer)@.len() && self.spec_serialized(
                old(buffer)@,
                final(buffer)@,
            ),
            old(buffer)@.len() != self.spec_len() ==> r == Err::<(), Error>(
                Error::InvalidDataLength,
            ) && final(buffer)@ == old(buffer)@,
    ;
}

/// Copies `data` into `buffer` starting at `offset`, leaving every other
/// byte unchanged.
pub(crate) fn write_bytes(buffer: &mut Vec<u8>, offset: usize, data: &[u8])
    requires
        offset + data@.len() <= old(buffer)@.len(),
    ensures
        final(buffer)@.len() == old(buffer)@.len(),
        forall|i: int| 0 <= i < data@.len() ==> final(buffer)@[offset + i] == data@[i],
        unchanged_outside(old(buffer)@, final(buffer)@, offset as int, offset + data@.len()),
{
    let buffer_len: usize = buffer.len();
    let mut i: usize = 0;
    while i < data.len()
        invariant
            i <= data@.len(),
            offset + data@.len() <= buffer@.len(),
            buffer@.len() == old(buffer)@.len(),
            buffer@.len() == buffer_len,
            forall|j: int| 0 <= j < i ==> buffer@[offset + j] == data@[j],
            unchanged_outside(old(buffer)@, buffer@, offset as int, offset + data@.len()),
        decreases data@.len() - i,
    {
        buffer.set(offset + i, data[i]);
        i = i + 1;
    }
}

/// Returns a vector of `n` zero bytes.
pub(crate) fn zeroed(n: usize) -> (r: Vec<u8>)
    ensures
        r@ == Seq::new(n as nat, |i: int| 0u8),
{
    let mut r: Vec<u8> = Vec::new();
    let mut i: usize = 0;
    while i < n
        invariant
            i <= n,
            r@.len() == i,
            forall|j: int| 0 <= j < i ==> r@[j] == 0u8,
        decreases n - i,
    {
        r.push(0u8);
        i = i + 1;
    }
    proof {
        assert(r@ =~= Seq::new(n as nat, |i: int| 0u8));
    }
    r
}

/// The signed reading of an unsigned 32-bit word: two's complement.
pub open spec fn spec_i32_of_u32(x: u32) -> int {
    if x < 0x8000_0000 {
        x as int
    } else {
        x - 0x1_0000_0000
    }
}

/// The unsigned storage of a signed 32-bit word: two's complement.
pub open spec fn spec_u32_of_i32(x: i32) -> u32 {
    if x >= 0 {
        x as u32
    } else {
        (x + 0x1_0000_0000) as u32
    }
}

/// The signed 32-bit word stored little-endian in four bytes.
pub open spec fn spec_i32_from_le_bytes(s: Seq<u8>) -> i32
    recommends
        s.len() == 4,
{
    spec_i32_of_u32(vstd::bytes::spec_u32_from_le_bytes(s)) as i32
}

/// The four little-endian bytes that store a signed 32-bit word.
pub open spec fn spec_i32_to_le_bytes(x: i32) -> Seq<u8> {
    vstd::bytes::spec_u32_to_le_bytes(spec_u32_of_i32(x))
}

/// Reads the signed 32-bit word stored little-endian in four bytes.
pub(crate) fn i32_from_le_bytes(s: &[u8]) -> (r: i32)
    requires
        s@.len() == 4,
    ensures
        r == spec_i32_from_le_bytes(s@),
{
    let x: u32 = vstd::bytes::u32_from_le_bytes(s);
    if x < 0x8000_0000 {
        x as i32
    } else {
        -((0xffff_ffffu32 - x) as i32) - 1
    }
}

/// Writes a signed 32-bit word as its four little-endian bytes.
pub(crate) fn i32_to_le_bytes(x: i32) -> (s: Vec<u8>)
    ensures
        s@ == spec_i32_to_le_bytes(x),
        s@.len() == 4,
{
    let u: u32 = if x >= 0 {
        x as u32
    } else {
        0xffff_ffffu32 - ((-(x + 1)) as u32)
    };
    vstd::bytes::u32_to_le_bytes(u)
}

/// Copies `data` into the array `dst` starting at `offset`, leaving every
/// other byte unchanged.
pub(crate) fn copy_into_array<const N: usize>(dst: &mut [u8; N], offset: usize, data: &[u8])
    requires
        offset + data@.len() <= N,
    ensures
        forall|i: int| 0 <= i < data@.len() ==> final(dst)@[offset + i] == data@[i],
        unchanged_outside(old(dst)@, final(dst)@, offset as int, offset + data@.len()),
{
    let mut i: usize = 0;
    while i < data.len()
        invariant
            i <= data@.len(),
            offset + data@.len() <= N,
            dst@.len() == N,
            forall|j: int| 0 <= j < i ==> dst@[offset + j] == data@[j],
            unchanged_outside(old(dst)@, dst@, offset as int, offset + data@.len()),
        decreases data@.len() - i,
    {
        dst[offset + i] = data[i];
        i = i + 1;
    }
}

/// Copies `n` bytes of `src` starting at `start` into a fresh array.
pub(crate) fn read_array<const N: usize>(src: &[u8], start: usize) -> (r: [u8; N])
    requires
        start + N <= src@.len(),
    ensures
        r@ == src@.subrange(start as int, start + N),
{
    let src_len: usize = src.len();
    let mut r: [u8; N] = vstd::array::array_fill_for_copy_types(0u8);
    let mut i: usize = 0;
    while i < N
        invariant
            i <= N,
            start + N <= src@.len(),
            src@.len() == src_len,
            forall|j: int| 0 <= j < i ==> r@[j] == src@[start + j],
        decreases N - i,
    {
        r[i] = src[start + i];
        i = i + 1;
    }
    proof {
        assert(r@ =~= src@.subrange(start as int, start + N));
    }
    r
}

} // verus!
