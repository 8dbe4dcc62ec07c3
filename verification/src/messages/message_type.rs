//! Message type dispatch.

use vstd::prelude::*;

verus! {

use crate::authentication::Authentication;
use crate::basic_id::BasicID;
use crate::error::Error;
use crate::location::Location;
use crate::operator_id::OperatorID;
use crate::pack::Pack;
use crate::self_id::SelfID;
use crate::system::System;
use crate::try_serialize::write_bytes;
use crate::try_serialize::TrySerialize;

/// The payload of a message, one of the seven message types.
///
/// The wire format puts the type's nibble in the high nibble of the first
/// message byte and the payload in the bytes that follow: 24 payload bytes
/// for every type but the pack, whose payload width varies with its
/// count.
#[derive(Clone, Copy, PartialEq, Eq, Debug)]
pub enum MessageType {
    /// Basic identification.
    BasicID(BasicID),
    /// Location.
    Location(Location),
    /// Authentication.
    Authentication(Authentication),
    /// Self identification.
    SelfID(SelfID),
    /// System.
    System(System),
    /// Operator identification.
    OperatorID(OperatorID),
    /// Message pack.
    Pack(Pack),
}

impl MessageType {
    /// The type nibble stored in the high nibble of the first wire byte.
    pub open spec fn spec_type_nibble(self) -> u8 {
        match self {
            MessageType::BasicID(_) => 0u8,
            MessageType::Location(_) => 1u8,
            MessageType::Authentication(_) => 2u8,
            MessageType::SelfID(_) => 3u8,
            MessageType::System(_) => 4u8,
            MessageType::OperatorID(_) => 5u8,
            MessageType::Pack(_) => 0x0fu8,
        }
    }

    /// The exact decoding relation of [`MessageType::try_from_bytes`]: `r`
    /// is the result that decoding the bytes `value` yields.
    pub open spec fn spec_decode_rel(value: Seq<u8>, r: Result<MessageType, Error>) -> bool {
        if value.len() == 0 {
            r == Err::<MessageType, Error>(Error::InvalidDataLength)
        } else {
            let tag = value[0] / 16;
            if tag == 0x0f {
                match r {
                    Ok(MessageType::Pack(p)) => Pack::spec_decode_rel(
                        value.subrange(1, value.len() as int),
                        Ok(p),
                    ),
                    Ok(_) => false,
                    Err(e) => Pack::spec_decode_rel(
                        value.subrange(1, value.len() as int),
                        Err::<Pack, Error>(e),
                    ),
                }
            } else if value.len() != 25 {
                r == Err::<MessageType, Error>(Error::InvalidDataLength)
            } else {
                let body = value.subrange(1, 25);
                if tag == 0 {
                    match r {
                        Ok(MessageType::BasicID(b)) => BasicID::spec_decode_rel(body, Ok(b)),
                        Ok(_) => false,
                        Err(e) => BasicID::spec_decode_rel(body, Err::<BasicID, Error>(e)),
                    }
                } else if tag == 1 {
                    match r {
                        Ok(MessageType::Location(l)) => Location::spec_decode_rel(body, Ok(l)),
                        Ok(_) => false,
                        Err(e) => Location::spec_decode_rel(body, Err::<Location, Error>(e)),
                    }
                } else if tag == 2 {
                    match r {
                        Ok(MessageType::Authentication(a)) => Authentication::spec_decode_rel(
                            body,
                            Ok(a),
                        ),
                        Ok(_) => false,
                        Err(e) => Authentication::spec_decode_rel(
                            body,
                            Err::<Authentication, Error>(e),
                        ),
                    }
                } else if tag == 3 {
                    match r {
                        Ok(MessageType::SelfID(s)) => SelfID::spec_decode_rel(body, Ok(s)),
                        Ok(_) => false,
                        Err(e) => SelfID::spec_decode_rel(body, Err::<SelfID, Error>(e)),
                    }
                } else if tag == 4 {
                    match r {
                        Ok(MessageType::System(s)) => System::spec_decode_rel(body, Ok(s)),
                        Ok(_) => false,
                        Err(e) => System::spec_decode_rel(body, Err::<System, Error>(e)),
                    }
                } else if tag == 5 {
                    match r {
                        Ok(MessageType::OperatorID(o)) => OperatorID::spec_decode_rel(body, Ok(o)),
                        Ok(_) => false,
                        Err(e) => OperatorID::spec_decode_rel(body, Err::<OperatorID, Error>(e)),
                    }
                } else {
                    r == Err::<MessageType, Error>(Error::InvalidInteger)
                }
            }
        }
    }

    /// Decodes a message type and payload from a byte slice.
    ///
    /// The high nibble of the first byte selects the payload kind.  The
    /// pack's nibble is handled before the length check, because a pack's
    /// width varies; every other kind demands exactly 25 bytes, and an
    /// unrecognized nibble is rejected with [`Error::InvalidInteger`].
    pub fn try_from_bytes(value: &[u8]) -> (r: Result<MessageType, Error>)
        ensures
            MessageType::spec_decode_rel(value@, r),
    {
        if value.len() == 0 {
            return Err(Error::InvalidDataLength);
        }
        let tag: u8 = value[0] / 16;
        if tag == 0x0f {
            return match Pack::try_from_bytes(
                vstd::slice::slice_subrange(value, 1, value.len()),
            ) {
                Ok(p) => Ok(MessageType::Pack(p)),
                Err(e) => Err(e),
            };
        }
        if value.len() != 25 {
            return Err(Error::InvalidDataLength);
        }
        let body: &[u8] = vstd::slice::slice_subrange(value, 1, 25);
        match tag {
            0 => match BasicID::try_from_bytes(body) {
                Ok(b) => Ok(MessageType::BasicID(b)),
                Err(e) => Err(e),
            },
            1 => match Location::try_from_bytes(body) {
                Ok(l) => Ok(MessageType::Location(l)),
                Err(e) => Err(e),
            },
            2 => match Authentication::try_from_bytes(body) {
                Ok(a) => Ok(MessageType::Authentication(a)),
                Err(e) => Err(e),
            },
            3 => match SelfID::try_from_bytes(body) {
                Ok(s) => Ok(MessageType::SelfID(s)),
                Err(e) => Err(e),
            },
            4 => match System::try_from_bytes(body) {
                Ok(s) => Ok(MessageType::System(s)),
                Err(e) => Err(e),
            },
            5 => match OperatorID::try_from_bytes(body) {
                Ok(o) => Ok(MessageType::OperatorID(o)),
                Err(e) => Err(e),
            },
            _ => Err(Error::InvalidInteger),
        }
    }
}

impl TrySerialize for MessageType {
    /// The wire width: the type byte plus the payload; 25 bytes for every
    /// kind but the pack.
    open spec fn spec_len(&self) -> nat {
        match *self {
            MessageType::Pack(p) => (3 + 25 * p.spec_number_of_messages()) as nat,
            _ => 25,
        }
    }

    /// Serialization merges the type nibble into the high nibble of the
    /// first byte and writes the payload into the bytes that follow.
    open spec fn spec_serialized(&self, prev_bytes: Seq<u8>, next_bytes: Seq<u8>) -> bool {
        &&& next_bytes.len() == prev_bytes.len()
        &&& match *self {
            MessageType::BasicID(b) => next_bytes[0] == prev_bytes[0] | 0x00u8
                && b.spec_serialized(prev_bytes.subrange(1, 25), next_bytes.subrange(1, 25)),
            MessageType::Location(l) => next_bytes[0] == prev_bytes[0] | 0x10u8
                && l.spec_serialized(prev_bytes.subrange(1, 25), next_bytes.subrange(1, 25)),
            MessageType::Authentication(a) => next_bytes[0] == prev_bytes[0] | 0x20u8
                && a.spec_serialized(prev_bytes.subrange(1, 25), next_bytes.subrange(1, 25)),
            MessageType::SelfID(s) => next_bytes[0] == prev_bytes[0] | 0x30u8 && s.spec_serialized(
                prev_bytes.subrange(1, 25),
                next_bytes.subrange(1, 25),
            ),
            MessageType::System(s) => next_bytes[0] == prev_bytes[0] | 0x40u8 && s.spec_serialized(
                prev_bytes.subrange(1, 25),
                next_bytes.subrange(1, 25),
            ),
            MessageType::OperatorID(o) => next_bytes[0] == prev_bytes[0] | 0x50u8
                && o.spec_serialized(prev_bytes.subrange(1, 25), next_bytes.subrange(1, 25)),
            MessageType::Pack(p) => next_bytes[0] == prev_bytes[0] | 0xf0u8 && p.spec_serialized(
                prev_bytes.subrange(1, prev_bytes.len() as int),
                next_bytes.subrange(1, next_bytes.len() as int),
            ),
        }
    }

    fn try_serialize(&self, buffer: &mut Vec<u8>) -> (r: Result<(), Error>) {
        match self {
            MessageType::Pack(p) => {
                if buffer.len() != 3 + 25 * p.number_of_messages() as usize {
                    return Err(Error::InvalidDataLength);
                }
                buffer.set(0, buffer[0] | 0xf0);
                let mut body: Vec<u8> = vstd::slice::slice_to_vec(
                    vstd::slice::slice_subrange(buffer.as_slice(), 1, buffer.len()),
                );
                match p.try_serialize(&mut body) {
                    Ok(()) => {
                        write_bytes(buffer, 1, body.as_slice());
                        proof {
                            assert(buffer@.subrange(1, buffer@.len() as int) =~= body@);
                        }
                        Ok(())
                    },
                    Err(e) => Err(e),
                }
            },
            _ => {
                if buffer.len() != 25 {
                    return Err(Error::InvalidDataLength);
                }
                match self {
                    MessageType::BasicID(b) => serialize_body(buffer, 0x00, b),
                    MessageType::Location(l) => serialize_body(buffer, 0x10, l),
                    MessageType::Authentication(a) => serialize_body(buffer, 0x20, a),
                    MessageType::SelfID(s) => serialize_body(buffer, 0x30, s),
                    MessageType::System(s) => serialize_body(buffer, 0x40, s),
                    MessageType::OperatorID(o) => serialize_body(buffer, 0x50, o),
                    MessageType::Pack(_) => Err(Error::Unreachable),
                }
            },
        }
    }
}

/// Merges `tag` into the first byte of the 25-byte `buffer` and writes the
/// 24-byte payload `body` after it.
fn serialize_body<T: TrySerialize>(buffer: &mut Vec<u8>, tag: u8, body: &T) -> (r: Result<
    (),
    Error,
>)
    requires
        old(buffer)@.len() == 25,
        body.spec_len() == 24,
    ensures
        r == Ok::<(), Error>(()),
        final(buffer)@.len() == 25,
        final(buffer)@[0] == old(buffer)@[0] | tag,
        body.spec_serialized(old(buffer)@.subrange(1, 25), final(buffer)@.subrange(1, 25)),
{
    buffer.set(0, buffer[0] | tag);
    let mut payload: Vec<u8> = vstd::slice::slice_to_vec(
        vstd::slice::slice_subrange(buffer.as_slice(), 1, 25),
    );
    proof {
        assert(payload@ =~= old(buffer)@.subrange(1, 25));
    }
    match body.try_serialize(&mut payload) {
        Ok(()) => {
            write_bytes(buffer, 1, payload.as_slice());
            proof {
                assert(buffer@.subrange(1, 25) =~= payload@);
            }
            Ok(())
        },
        Err(e) => Err(e),
    }
}

} // verus!
