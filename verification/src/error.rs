//! Errors reported while encoding or decoding messages.
//!
//! Every failure is terminal to the call that produced it; there is no retry
//! and no partial-success state anywhere in the crate.

use vstd::prelude::*;

verus! {

/// Error enumeration shared by every encoder and decoder of the crate.
#[derive(Clone, Copy, PartialEq, Eq, Structural, Debug)]
pub enum Error {
    /// A supplied buffer is not exactly the size the operation requires.
    InvalidDataLength,
    /// A numeric or enumerated code is outside its legal range and no
    /// fallback variant can absorb it.
    InvalidInteger,
    /// A registration identifier violates its character set or dot count.
    InvalidRegistrationID,
    /// A serial number violates its character set or length marker.
    InvalidSerialNumber,
    /// A pack element's own discriminant marks it as a pack; packs may not
    /// nest.
    CannotRecursivelyPack,
    /// The protocol-version nibble differs from the supported constant.
    InvalidProtocolVersion,
    /// Internal invariant violation; observing this error is a bug in the
    /// library, not a data error.
    Unreachable,
}

} // verus!
