//! Tests for the message envelope and type dispatch.

use drone_id::basic_id::BasicID;
use drone_id::basic_id::UAType;
use drone_id::basic_id::UASID;
use drone_id::basic_id::UTMAssignedUUID;
use drone_id::messages::Message;
use drone_id::messages::MessageType;
use drone_id::operator_id::OperatorID;
use drone_id::operator_id::OperatorIDType;
use drone_id::try_serialize::TrySerialize;

#[test]
fn message_test_getters() {
    let basic_id = BasicID::new(UAType::Aeroplane, UASID::NotProvided);
    let message_type = MessageType::BasicID(basic_id);
    let message = Message::new(message_type);

    assert_eq!(message.protocol_version(), Message::PROTOCOL_VERSION);
    assert_eq!(message.message_type(), message_type);
    assert_eq!(message.encoding_byte_length(), 25);
    assert_eq!(message.is_pack(), false);
}

#[test]
fn message_test_encode() {
    let ua_type = UAType::Aeroplane;
    let uas_id = UASID::UTMAssignedUUID(UTMAssignedUUID::new([2u8; 20]));
    let basic_id = BasicID::new(ua_type, uas_id);
    let message_type = MessageType::BasicID(basic_id);
    let message = Message::new(message_type);

    let mut encoded_uas_id = vec![0u8; 21];
    uas_id.try_serialize(&mut encoded_uas_id).unwrap();

    let mut encoded = vec![0u8; 25];
    message.try_serialize(&mut encoded).unwrap();

    assert_eq!(encoded[0], Message::PROTOCOL_VERSION | (0 << 4));
    assert_eq!(encoded[1] & 0b0000_1111, ua_type.encode());
    assert_eq!(encoded[1] >> 4, 3);
    assert_eq!(encoded[2..22], encoded_uas_id[1..]);
    assert_eq!(encoded[23], 0);
    assert_eq!(encoded[24], 0);
}

#[test]
fn test_encode_operator_id() {
    let operator_id = OperatorID::new(OperatorIDType::OperatorID, [2u8; 20]);
    let message_type = MessageType::OperatorID(operator_id);
    let message = Message::new(message_type);

    let mut encoded_operator_id = vec![0u8; 24];
    operator_id.try_serialize(&mut encoded_operator_id).unwrap();

    let mut encoded = vec![0u8; 25];
    message.try_serialize(&mut encoded).unwrap();

    assert_eq!(encoded[0], Message::PROTOCOL_VERSION | (5 << 4));
    assert_eq!(encoded[1..25], encoded_operator_id);
}

#[test]
fn message_test_encode_fails_invalid_data_length() {
    let mut too_short = vec![0u8; 24];
    let mut too_long = vec![0u8; 26];

    let ua_type = UAType::Aeroplane;
    let uas_id = UASID::UTMAssignedUUID(UTMAssignedUUID::new([2u8; 20]));
    let basic_id = BasicID::new(ua_type, uas_id);
    let message_type = MessageType::BasicID(basic_id);
    let message = Message::new(message_type);

    assert!(message.try_serialize(&mut too_short).is_err());
    assert!(message.try_serialize(&mut too_long).is_err());
}

#[test]
fn message_test_decode() {
    let ua_type = UAType::Aeroplane;
    let uas_id = UASID::UTMAssignedUUID(UTMAssignedUUID::new([2u8; 20]));
    let basic_id = BasicID::new(ua_type, uas_id);
    let message_type = MessageType::BasicID(basic_id);
    let expected = Message::new(message_type);

    let mut encoded_uas_id = vec![0u8; 21];
    uas_id.try_serialize(&mut encoded_uas_id).unwrap();

    let mut encoded = vec![0u8; 25];
    encoded[0] = Message::PROTOCOL_VERSION;
    encoded[1..22].clone_from_slice(&encoded_uas_id);
    encoded[1] |= ua_type.encode();

    let decoded = Message::try_from_bytes(&encoded).unwrap();

    assert_eq!(decoded, expected);
}

#[test]
fn message_test_decode_fails_invalid_data_length() {
    let mut too_short = vec![0u8; 24];
    let mut too_long = vec![0u8; 26];

    // The version nibble must be right for the length check to be reached.
    too_short[0] = Message::PROTOCOL_VERSION;
    too_long[0] = Message::PROTOCOL_VERSION;

    assert!(Message::try_from_bytes(&too_short).is_err());
    assert!(Message::try_from_bytes(&too_long).is_err());
}

#[test]
fn test_decode_fails_invalid_protocol_version() {
    let invalid = [0u8; 25];

    assert!(Message::try_from_bytes(&invalid).is_err());
}

#[test]
fn message_type_test_encode() {
    let basic_id = BasicID::new(UAType::Ornithopter, UASID::NotProvided);
    let message_type = MessageType::BasicID(basic_id);

    let mut encoded_basic_id = vec![0u8; 24];
    basic_id.try_serialize(&mut encoded_basic_id).unwrap();

    let mut encoded = vec![0u8; 25];
    message_type.try_serialize(&mut encoded).unwrap();

    assert_eq!(encoded[0], 0 << 4);
    assert_eq!(encoded[1..], encoded_basic_id);
}

#[test]
fn message_type_test_encode_fails_invalid_data_length() {
    let mut too_short = vec![0u8; 24];
    let mut too_long = vec![0u8; 26];

    let message_type = MessageType::BasicID(BasicID::new(UAType::Ornithopter, UASID::NotProvided));

    assert!(message_type.try_serialize(&mut too_short).is_err());
    assert!(message_type.try_serialize(&mut too_long).is_err());
}

#[test]
fn message_type_test_decode() {
    let basic_id = BasicID::new(UAType::Ornithopter, UASID::NotProvided);

    let mut payload = vec![0u8; 24];
    basic_id.try_serialize(&mut payload).unwrap();

    let mut encoded = vec![0u8; 25];
    encoded[1..25].clone_from_slice(&payload);

    let decoded = MessageType::try_from_bytes(&encoded).unwrap();

    assert_eq!(decoded, MessageType::BasicID(basic_id));
}

#[test]
fn message_type_test_decode_fails_invalid_data_length() {
    let too_short = [0u8; 24];
    let too_long = [0u8; 26];

    assert!(MessageType::try_from_bytes(&too_short).is_err());
    assert!(MessageType::try_from_bytes(&too_long).is_err());
}

#[test]
fn test_decode_fails_invalid_message_type() {
    let mut invalid = [0u8; 25];
    invalid[0] = 0x06 << 4;

    assert!(MessageType::try_from_bytes(&invalid).is_err());
}
