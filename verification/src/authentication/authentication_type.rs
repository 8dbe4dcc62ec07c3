//! Authentication type codec.

use vstd::prelude::*;

verus! {

use crate::error::Error;

/// Type of authentication data carried by an authentication message.
///
/// The wire format is a nibble widened to the legal range 0 through 0x10:
/// codes 0 through 5 are the named types, 6 through 9 are reserved, 0x0A
/// through 0x10 are available for private use, and anything above 0x10 is
/// rejected.
#[derive(Clone, Copy, PartialEq, Eq, Structural, Debug)]
pub enum AuthenticationType {
    /// No authentication.
    NoAuthentication,
    /// Signature over the aircraft identifier.
    UASIDSignature,
    /// Signature over the operator identifier.
    OperatorIDSignature,
    /// Signature over the whole message set, used when all messages can be
    /// sent together.
    MessageSetSignature,
    /// Network remote identification authentication data; all other bytes
    /// of the authentication data should be left null.
    NetworkRemoteIDAuthentication,
    /// Authentication through the IANA "Specification Required" registry of
    /// IETF RFC 8126.
    SpecificAuthenticationMessage,
    /// Reserved for the specification.
    ReservedForSpec,
    /// Available for private use, particularly for local custom
    /// authentication types.
    AvailableForPrivateUse,
}

impl AuthenticationType {
    /// Smallest reserved code.
    pub const RESERVED_THRESHOLD: u8 = 6;

    /// Smallest code available for private use.
    pub const PRIVATE_USE_THRESHOLD: u8 = 0x0a;

    /// Largest legal raw code.
    pub const MAX: u8 = 0x10;

    /// What decoding a raw byte yields: codes above the maximum are
    /// rejected, codes at or above the private-use threshold map to private
    /// use, at or above the reserved threshold to reserved, the rest to
    /// their named type.
    pub open spec fn spec_decode(raw: u8) -> Result<AuthenticationType, Error> {
        if raw > 0x10 {
            Err(Error::InvalidInteger)
        } else if raw >= 0x0a {
            Ok(AuthenticationType::AvailableForPrivateUse)
        } else if raw >= 6 {
            Ok(AuthenticationType::ReservedForSpec)
        } else if raw == 0 {
            Ok(AuthenticationType::NoAuthentication)
        } else if raw == 1 {
            Ok(AuthenticationType::UASIDSignature)
        } else if raw == 2 {
            Ok(AuthenticationType::OperatorIDSignature)
        } else if raw == 3 {
            Ok(AuthenticationType::MessageSetSignature)
        } else if raw == 4 {
            Ok(AuthenticationType::NetworkRemoteIDAuthentication)
        } else {
            Ok(AuthenticationType::SpecificAuthenticationMessage)
        }
    }

    /// What encoding yields: the named code, or the lower bound of the band
    /// the variant stands for.
    pub open spec fn spec_encode(self) -> u8 {
        match self {
            AuthenticationType::NoAuthentication => 0u8,
            AuthenticationType::UASIDSignature => 1u8,
            AuthenticationType::OperatorIDSignature => 2u8,
            AuthenticationType::MessageSetSignature => 3u8,
            AuthenticationType::NetworkRemoteIDAuthentication => 4u8,
            AuthenticationType::SpecificAuthenticationMessage => 5u8,
            AuthenticationType::ReservedForSpec => 6u8,
            AuthenticationType::AvailableForPrivateUse => 0x0au8,
        }
    }

    /// Decodes a raw byte; rejects anything above the maximum with
    /// [`Error::InvalidInteger`].
    pub fn decode(raw: u8) -> (r: Result<AuthenticationType, Error>)
        ensures
            r == AuthenticationType::spec_decode(raw),
    {
        if raw > 0x10 {
            return Err(Error::InvalidInteger);
        }
        if raw >= 0x0a {
            return Ok(AuthenticationType::AvailableForPrivateUse);
        }
        if raw >= 6 {
            return Ok(AuthenticationType::ReservedForSpec);
        }
        match raw {
            0 => Ok(AuthenticationType::NoAuthentication),
            1 => Ok(AuthenticationType::UASIDSignature),
            2 => Ok(AuthenticationType::OperatorIDSignature),
            3 => Ok(AuthenticationType::MessageSetSignature),
            4 => Ok(AuthenticationType::NetworkRemoteIDAuthentication),
            _ => Ok(AuthenticationType::SpecificAuthenticationMessage),
        }
    }

    /// Encodes into a raw byte.
    pub fn encode(&self) -> (r: u8)
        ensures
            r == self.spec_encode(),
    {
        match self {
            AuthenticationType::NoAuthentication => 0,
            AuthenticationType::UASIDSignature => 1,
            AuthenticationType::OperatorIDSignature => 2,
            AuthenticationType::MessageSetSignature => 3,
            AuthenticationType::NetworkRemoteIDAuthentication => 4,
            AuthenticationType::SpecificAuthenticationMessage => 5,
            AuthenticationType::ReservedForSpec => 6,
            AuthenticationType::AvailableForPrivateUse => 0x0a,
        }
    }

    /// Round trip: every variant survives an encode followed by a decode,
    /// and every named raw code survives a decode followed by an encode.
    pub proof fn lemma_round_trip(v: AuthenticationType, raw: u8)
        ensures
            AuthenticationType::spec_decode(v.spec_encode()) == Ok::<AuthenticationType, Error>(v),
            raw <= 6 || raw == 0x0a ==> (match AuthenticationType::spec_decode(raw) {
                Ok(t) => t.spec_encode() == raw,
                Err(_) => false,
            }),
    {
    }

    /// Threshold rule: every raw code in the reserved band decodes to
    /// [`AuthenticationType::ReservedForSpec`], and every code from the
    /// private-use threshold through the maximum to
    /// [`AuthenticationType::AvailableForPrivateUse`].
    pub proof fn lemma_threshold(raw: u8)
        ensures
            6 <= raw < 0x0a ==> AuthenticationType::spec_decode(raw) == Ok::<
                AuthenticationType,
                Error,
            >(AuthenticationType::ReservedForSpec),
            0x0a <= raw <= 0x10 ==> AuthenticationType::spec_decode(raw) == Ok::<
                AuthenticationType,
                Error,
            >(AuthenticationType::AvailableForPrivateUse),
    {
    }
}

} // verus!
