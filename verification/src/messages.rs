//! The message envelope, entry point for encoding and decoding.
//!
//! A [`Message`] wraps one payload with a protocol-version nibble and a
//! message-type nibble in its first byte.  Decoding generally goes through
//! [`Message::try_from_bytes`] on a 25-byte buffer (or a longer one for a
//! pack); encoding through the [`TrySerialize`] implementation, with the
//! buffer length that [`Message::encoding_byte_length`] reports.  Partial
//! decoding of a single payload kind is possible through that kind's own
//! codec, with its own length.
//!
//! Neither direction ever panics; every failure is an enumerated
//! [`Error`](crate::error::Error).

mod message_type;

pub use message_type::MessageType;

use vstd::prelude::*;

verus! {

use crate::error::Error;
use crate::try_serialize::TrySerialize;

/// Message envelope: a protocol version and a payload.
///
/// The low nibble of the first wire byte is the protocol version, which
/// must equal [`Message::PROTOCOL_VERSION`]; the high nibble selects the
/// payload kind.
#[derive(Clone, Copy, PartialEq, Eq, Debug)]
pub struct Message {
    protocol_version: u8,
    message_type: MessageType,
}

impl Message {
    /// The one protocol version this crate speaks.
    pub const PROTOCOL_VERSION: u8 = 0x02;

    /// Every message carries the supported protocol version; both
    /// constructors establish this.
    #[verifier::type_invariant]
    spec fn inv(self) -> bool {
        self.protocol_version == 0x02
    }

    /// The protocol version of the message.
    pub closed spec fn spec_protocol_version(self) -> u8 {
        self.protocol_version
    }

    /// The payload of the message.
    pub closed spec fn spec_message_type(self) -> MessageType {
        self.message_type
    }

    /// The exact decoding relation of [`Message::try_from_bytes`]: `r` is
    /// the result that decoding the bytes `value` yields.
    pub open spec fn spec_decode_rel(value: Seq<u8>, r: Result<Message, Error>) -> bool {
        if value.len() == 0 {
            r == Err::<Message, Error>(Error::InvalidDataLength)
        } else if value[0] % 16 != 0x02 {
            r == Err::<Message, Error>(Error::InvalidProtocolVersion)
        } else {
            match r {
                Ok(m) => m.spec_protocol_version() == 0x02 && MessageType::spec_decode_rel(
                    value,
                    Ok(m.spec_message_type()),
                ),
                Err(e) => MessageType::spec_decode_rel(value, Err::<MessageType, Error>(e)),
            }
        }
    }

    /// Constructs a message around a payload; the protocol version is the
    /// supported constant.
    pub fn new(message_type: MessageType) -> (r: Message)
        ensures
            r.spec_protocol_version() == 0x02,
            r.spec_message_type() == message_type,
    {
        Message { protocol_version: 0x02, message_type }
    }

    /// Returns the protocol version; always the supported constant.
    pub fn protocol_version(&self) -> (r: u8)
        ensures
            r == self.spec_protocol_version(),
            r == 0x02,
    {
        proof {
            use_type_invariant(self);
        }
        self.protocol_version
    }

    /// Returns the payload of the message.
    pub fn message_type(&self) -> (r: MessageType)
        ensures
            r == self.spec_message_type(),
    {
        self.message_type
    }

    /// Returns the exact buffer length serialization demands: 25 bytes,
    /// unless the payload is a pack, whose envelope takes `3 + 25 x count`
    /// bytes.
    pub fn encoding_byte_length(&self) -> (r: usize)
        ensures
            r == self.spec_len(),
    {
        match &self.message_type {
            MessageType::Pack(p) => 3 + 25 * p.number_of_messages() as usize,
            _ => 25,
        }
    }

    /// Returns true if the payload is a pack.
    pub fn is_pack(&self) -> (r: bool)
        ensures
            r == (self.spec_message_type() matches MessageType::Pack(_)),
    {
        match &self.message_type {
            MessageType::Pack(_) => true,
            _ => false,
        }
    }

    /// Decodes a message from a byte slice.
    ///
    /// The protocol version is checked first: any 25-byte buffer whose low
    /// nibble of the first byte differs from the supported constant is
    /// rejected with [`Error::InvalidProtocolVersion`], whatever the rest
    /// of its bytes.  The payload kind then dispatches on the high nibble;
    /// a pack payload is read with its variable length, every other kind
    /// demands exactly 25 bytes.
    pub fn try_from_bytes(value: &[u8]) -> (r: Result<Message, Error>)
        ensures
            Message::spec_decode_rel(value@, r),
    {
        if value.len() == 0 {
            return Err(Error::InvalidDataLength);
        }
        let protocol_version: u8 = value[0] % 16;
        if protocol_version != 0x02 {
            return Err(Error::InvalidProtocolVersion);
        }
        match MessageType::try_from_bytes(value) {
            Ok(message_type) => Ok(Message { protocol_version, message_type }),
            Err(e) => Err(e),
        }
    }
}

/// Protocol version gating: decoding any non-empty buffer whose low nibble
/// of the first byte differs from the supported protocol version fails
/// with [`Error::InvalidProtocolVersion`], whatever the rest of the bytes
/// hold.
pub proof fn lemma_protocol_version_gating(value: Seq<u8>, r: Result<Message, Error>)
    requires
        value.len() >= 1,
        value[0] % 16 != 0x02,
        Message::spec_decode_rel(value, r),
    ensures
        r == Err::<Message, Error>(Error::InvalidProtocolVersion),
{
}

impl TrySerialize for Message {
    /// The wire width: 25 bytes, or `3 + 25 x count` for a pack payload.
    open spec fn spec_len(&self) -> nat {
        self.spec_message_type().spec_len()
    }

    /// Serialization writes the protocol version into the first byte and
    /// the payload around it.
    open spec fn spec_serialized(&self, prev_bytes: Seq<u8>, next_bytes: Seq<u8>) -> bool {
        self.spec_message_type().spec_serialized(prev_bytes.update(0, 0x02u8), next_bytes)
    }

    fn try_serialize(&self, buffer: &mut Vec<u8>) -> (r: Result<(), Error>) {
        proof {
            use_type_invariant(self);
        }
        let required: usize = self.encoding_byte_length();
        if buffer.len() != required {
            return Err(Error::InvalidDataLength);
        }
        buffer.set(0, self.protocol_version);
        proof {
            assert(buffer@ =~= old(buffer)@.update(0, 0x02u8));
        }
        self.message_type.try_serialize(buffer)
    }
}

} // verus!
