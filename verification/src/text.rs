//! Byte-string helpers for the fixed-width text identifiers.

use vstd::prelude::*;

verus! {

/// The prefix of `s` that precedes the first occurrence of `stop` (all of
/// `s` if `stop` does not occur).
pub open spec fn prefix_until_byte(s: Seq<u8>, stop: u8) -> Seq<u8>
    decreases s.len(),
{
    if s.len() == 0 {
        s
    } else if s[0] == stop {
        Seq::empty()
    } else {
        seq![s[0]] + prefix_until_byte(s.subrange(1, s.len() as int), stop)
    }
}

/// What follows the first occurrence of `stop` in `s` (empty if `stop`
/// does not occur).
pub open spec fn after_first_byte(s: Seq<u8>, stop: u8) -> Seq<u8>
    decreases s.len(),
{
    if s.len() == 0 {
        s
    } else if s[0] == stop {
        s.subrange(1, s.len() as int)
    } else {
        after_first_byte(s.subrange(1, s.len() as int), stop)
    }
}

/// If the first occurrence of `stop` in `s` is at index `i` (or `stop`
/// does not occur and `i` is the length), the prefix before `stop` is
/// exactly `s` up to `i`.
pub proof fn lemma_prefix_until_byte(s: Seq<u8>, stop: u8, i: int)
    requires
        0 <= i <= s.len(),
        forall|j: int| 0 <= j < i ==> s[j] != stop,
        i < s.len() ==> s[i] == stop,
    ensures
        prefix_until_byte(s, stop) == s.subrange(0, i),
    decreases i,
{
    if s.len() == 0 {
        assert(prefix_until_byte(s, stop) =~= s.subrange(0, i));
    } else if i == 0 {
        assert(prefix_until_byte(s, stop) =~= s.subrange(0, 0));
    } else {
        let tail = s.subrange(1, s.len() as int);
        lemma_prefix_until_byte(tail, stop, i - 1);
        assert(prefix_until_byte(s, stop) =~= s.subrange(0, i));
    }
}

/// If the first occurrence of `stop` in `s` is at index `i`, what follows
/// it is exactly `s` from `i + 1` on.
pub proof fn lemma_after_first_byte(s: Seq<u8>, stop: u8, i: int)
    requires
        0 <= i < s.len(),
        forall|j: int| 0 <= j < i ==> s[j] != stop,
        s[i] == stop,
    ensures
        after_first_byte(s, stop) == s.subrange(i + 1, s.len() as int),
    decreases i,
{
    if i == 0 {
        assert(after_first_byte(s, stop) =~= s.subrange(1, s.len() as int));
    } else {
        let tail = s.subrange(1, s.len() as int);
        lemma_after_first_byte(tail, stop, i - 1);
        assert(after_first_byte(s, stop) =~= s.subrange(i + 1, s.len() as int));
    }
}

/// If `stop` does not occur in `s`, what follows its first occurrence is
/// empty.
pub proof fn lemma_after_first_byte_absent(s: Seq<u8>, stop: u8)
    requires
        forall|j: int| 0 <= j < s.len() ==> s[j] != stop,
    ensures
        after_first_byte(s, stop).len() == 0,
    decreases s.len(),
{
    if s.len() > 0 {
        lemma_after_first_byte_absent(s.subrange(1, s.len() as int), stop);
    }
}

/// Returns the index of the first occurrence of `stop` in `src`, or the
/// length of `src` if it does not occur.
pub(crate) fn find_byte(src: &[u8], stop: u8) -> (i: usize)
    ensures
        0 <= i <= src@.len(),
        forall|j: int| 0 <= j < i ==> src@[j] != stop,
        i < src@.len() ==> src@[i as int] == stop,
{
    let n: usize = src.len();
    let mut i: usize = 0;
    while i < n
        invariant
            i <= n,
            n == src@.len(),
            forall|j: int| 0 <= j < i ==> src@[j] != stop,
        decreases n - i,
    {
        if src[i] == stop {
            return i;
        }
        i = i + 1;
    }
    i
}

/// Copies the prefix of `src` that precedes the first occurrence of `stop`
/// into a fresh vector.
pub(crate) fn prefix_until(src: &[u8], stop: u8) -> (r: Vec<u8>)
    ensures
        r@ == prefix_until_byte(src@, stop),
{
    let i: usize = find_byte(src, stop);
    let r = vstd::slice::slice_to_vec(vstd::slice::slice_subrange(src, 0, i));
    proof {
        lemma_prefix_until_byte(src@, stop, i as int);
    }
    r
}

} // verus!
