//! Pack message: a batch of serialized messages.
//!
//! A pack carries up to nine full messages back to back, for transports
//! whose frames can hold more than one 25-byte message.  The contained
//! messages are kept serialized; [`Pack::try_get_message`] re-parses one
//! element on demand, so callers can skip elements they do not care
//! about.

use vstd::prelude::*;

verus! {

use crate::error::Error;
use crate::messages::Message;
use crate::try_serialize::copy_into_array;
use crate::try_serialize::write_bytes;
use crate::try_serialize::zeroed;
use crate::try_serialize::TrySerialize;

/// Pack message: a count and up to nine serialized 25-byte messages.
///
/// The wire format is `2 + 25 x count` bytes: a length-unit marker that is
/// always 25, the count, and the messages back to back.
#[derive(Clone, Copy, PartialEq, Eq, Debug)]
pub struct Pack {
    number_of_messages: u8,
    messages: [u8; 225],
}

impl Pack {
    /// Wire length of every non-pack message.
    pub const MESSAGES_LENGTH: usize = 25;

    /// Message-type nibble of pack messages.
    pub const PACK_MESSAGE_CODE: u8 = 0x0f;

    /// The count fits the storage of nine messages; every constructor
    /// establishes this.
    #[verifier::type_invariant]
    spec fn inv(self) -> bool {
        self.number_of_messages <= 9
    }

    /// The number of messages in the pack.
    pub closed spec fn spec_number_of_messages(self) -> u8 {
        self.number_of_messages
    }

    /// The 225 bytes of message storage; the messages stand back to back
    /// at its front, the rest is zero filler.
    pub closed spec fn spec_messages(self) -> Seq<u8> {
        self.messages@
    }

    /// The exact decoding relation of [`Pack::try_from_bytes`]: `r` is the
    /// result that decoding the bytes `value` yields.
    pub open spec fn spec_decode_rel(value: Seq<u8>, r: Result<Pack, Error>) -> bool {
        if value.len() < 2 {
            r == Err::<Pack, Error>(Error::InvalidDataLength)
        } else {
            let n = value[1];
            if n > 9 {
                r == Err::<Pack, Error>(Error::InvalidInteger)
            } else if value.len() != 2 + 25 * n {
                r == Err::<Pack, Error>(Error::InvalidDataLength)
            } else if value[0] != 25 {
                r == Err::<Pack, Error>(Error::InvalidInteger)
            } else {
                r matches Ok(p) && p.spec_number_of_messages() == n && p.spec_messages()
                    == value.subrange(2, value.len() as int) + Seq::new(
                    (225 - 25 * n) as nat,
                    |i: int| 0u8,
                )
            }
        }
    }

    /// Decodes a pack from a byte slice of exactly `2 + 25 x count` bytes.
    ///
    /// A count above nine is rejected with [`Error::InvalidInteger`], a
    /// length that does not match the count with
    /// [`Error::InvalidDataLength`], and a length-unit marker other than
    /// 25 with [`Error::InvalidInteger`].
    pub fn try_from_bytes(value: &[u8]) -> (r: Result<Pack, Error>)
        ensures
            Pack::spec_decode_rel(value@, r),
    {
        if value.len() < 2 {
            return Err(Error::InvalidDataLength);
        }
        let number_of_messages: u8 = value[1];
        if number_of_messages > 9 {
            return Err(Error::InvalidInteger);
        }
        if value.len() != 2 + 25 * number_of_messages as usize {
            return Err(Error::InvalidDataLength);
        }
        if value[0] != 25 {
            return Err(Error::InvalidInteger);
        }
        let mut messages: [u8; 225] = [0u8; 225];
        copy_into_array(&mut messages, 0, vstd::slice::slice_subrange(value, 2, value.len()));
        proof {
            assert(messages@ =~= value@.subrange(2, value@.len() as int) + Seq::new(
                (225 - 25 * number_of_messages) as nat,
                |i: int| 0u8,
            ));
        }
        Ok(Pack { number_of_messages, messages })
    }

    /// Builds a pack by serializing an array of at most nine messages.
    ///
    /// Ten or more messages are rejected with [`Error::InvalidInteger`]; a
    /// message that does not fit one 25-byte slot (a pack, whose width is
    /// variable) makes its own serialization fail with
    /// [`Error::InvalidDataLength`], so packs cannot nest.
    pub fn try_from_messages(messages: &[Message]) -> (r: Result<Pack, Error>)
        ensures
            messages@.len() > 9 ==> r == Err::<Pack, Error>(Error::InvalidInteger),
            messages@.len() <= 9 ==> {
                if forall|i: int| 0 <= i < messages@.len() ==> (#[trigger] messages@[i].spec_len())
                    == 25 {
                    r matches Ok(p) && p.spec_number_of_messages() == messages@.len() && (forall|
                        i: int,
                    |
                        0 <= i < messages@.len() ==> messages@[i].spec_serialized(
                            Seq::new(25, |j: int| 0u8),
                            #[trigger] p.spec_messages().subrange(25 * i, 25 * i + 25),
                        )) && (forall|j: int|
                        25 * messages@.len() <= j < 225 ==> #[trigger] p.spec_messages()[j] == 0u8)
                } else {
                    r == Err::<Pack, Error>(Error::InvalidDataLength)
                }
            },
    {
        let n: usize = messages.len();
        if n > 9 {
            return Err(Error::InvalidInteger);
        }
        let mut buffer: [u8; 225] = [0u8; 225];
        let mut i: usize = 0;
        while i < n
            invariant
                i <= n,
                n <= 9,
                n == messages@.len(),
                buffer@.len() == 225,
                forall|k: int| 0 <= k < i ==> (#[trigger] messages@[k].spec_len()) == 25,
                forall|k: int|
                    0 <= k < i ==> messages@[k].spec_serialized(
                        Seq::new(25, |j: int| 0u8),
                        #[trigger] buffer@.subrange(25 * k, 25 * k + 25),
                    ),
                forall|j: int| 25 * i <= j < 225 ==> #[trigger] buffer@[j] == 0u8,
            decreases n - i,
        {
            let mut slot: Vec<u8> = zeroed(25);
            match messages[i].try_serialize(&mut slot) {
                Ok(()) => {
                    let ghost before = buffer@;
                    copy_into_array(&mut buffer, 25 * i, slot.as_slice());
                    proof {
                        assert forall|k: int| 0 <= k < i + 1 implies messages@[k].spec_serialized(
                            Seq::new(25, |j: int| 0u8),
                            #[trigger] buffer@.subrange(25 * k, 25 * k + 25),
                        ) by {
                            if k < i {
                                assert(buffer@.subrange(25 * k, 25 * k + 25) =~= before.subrange(
                                    25 * k,
                                    25 * k + 25,
                                ));
                            } else {
                                assert(buffer@.subrange(25 * k, 25 * k + 25) =~= slot@);
                            }
                        }
                    }
                },
                Err(e) => {
                    return Err(e);
                },
            }
            i = i + 1;
        }
        Ok(Pack { number_of_messages: n as u8, messages: buffer })
    }

    /// Re-parses the message at `index`.
    ///
    /// Returns nothing at all for an index at or beyond the count.  An
    /// element whose leading message-type nibble marks it as a pack is
    /// rejected with [`Error::CannotRecursivelyPack`]: packs may not nest.
    /// Otherwise the element's 25 bytes are decoded as a message.
    pub fn try_get_message(&self, index: u8) -> (r: Option<Result<Message, Error>>)
        ensures
            index >= self.spec_number_of_messages() ==> r is None,
            index < self.spec_number_of_messages() ==> ({
                let raw = self.spec_messages().subrange(25 * index, 25 * index + 25);
                if raw[0] / 16 == 0x0f {
                    r == Some(Err::<Message, Error>(Error::CannotRecursivelyPack))
                } else {
                    match r {
                        Some(res) => Message::spec_decode_rel(raw, res),
                        None => false,
                    }
                }
            }),
    {
        proof {
            use_type_invariant(self);
        }
        if index >= self.number_of_messages {
            return None;
        }
        let offset: usize = index as usize * 25;
        let raw: &[u8] = vstd::slice::slice_subrange(self.messages.as_slice(), offset, offset + 25);
        if raw[0] / 16 == 0x0f {
            return Some(Err(Error::CannotRecursivelyPack));
        }
        Some(Message::try_from_bytes(raw))
    }

    /// Returns the number of messages in the pack; at most nine.
    pub fn number_of_messages(&self) -> (r: u8)
        ensures
            r == self.spec_number_of_messages(),
            r <= 9,
    {
        proof {
            use_type_invariant(self);
        }
        self.number_of_messages
    }

    /// Returns the raw message storage: the messages back to back,
    /// followed by zero filler.  For one decoded message, use
    /// [`Pack::try_get_message`].
    pub fn messages(&self) -> (r: [u8; 225])
        ensures
            r@ == self.spec_messages(),
    {
        self.messages
    }
}

impl TrySerialize for Pack {
    /// The wire width: the marker, the count, and 25 bytes per message.
    open spec fn spec_len(&self) -> nat {
        (2 + 25 * self.spec_number_of_messages()) as nat
    }

    /// Serialization writes the length-unit marker, the count, and the
    /// serialized messages, overwriting the whole buffer.
    open spec fn spec_serialized(&self, prev_bytes: Seq<u8>, next_bytes: Seq<u8>) -> bool {
        &&& next_bytes.len() == 2 + 25 * self.spec_number_of_messages()
        &&& next_bytes[0] == 25u8
        &&& next_bytes[1] == self.spec_number_of_messages()
        &&& next_bytes.subrange(2, next_bytes.len() as int) == self.spec_messages().subrange(
            0,
            25 * self.spec_number_of_messages(),
        )
    }

    fn try_serialize(&self, buffer: &mut Vec<u8>) -> (r: Result<(), Error>) {
        proof {
            use_type_invariant(self);
        }
        let messages_length: usize = self.number_of_messages as usize * 25;
        if buffer.len() != 2 + messages_length {
            return Err(Error::InvalidDataLength);
        }
        buffer.set(0, 25);
        buffer.set(1, self.number_of_messages);
        write_bytes(
            buffer,
            2,
            vstd::slice::slice_subrange(self.messages.as_slice(), 0, messages_length),
        );
        proof {
            assert(buffer@.subrange(2, buffer@.len() as int) =~= self.spec_messages().subrange(
                0,
                25 * self.spec_number_of_messages(),
            ));
        }
        Ok(())
    }
}

} // verus!
