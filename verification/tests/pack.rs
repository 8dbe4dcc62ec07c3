//! Tests for the pack message.

use drone_id::basic_id::BasicID;
use drone_id::basic_id::UAType;
use drone_id::basic_id::UASID;
use drone_id::basic_id::UTMAssignedUUID;
use drone_id::messages::Message;
use drone_id::messages::MessageType;
use drone_id::operator_id::OperatorID;
use drone_id::operator_id::OperatorIDType;
use drone_id::pack::Pack;
use drone_id::try_serialize::TrySerialize;

fn total_len(message_count: usize) -> usize {
    2 + message_count * Pack::MESSAGES_LENGTH
}

#[test]
fn pack_test_getters() {
    let ua_type = UAType::Aeroplane;
    let uas_id = UASID::UTMAssignedUUID(UTMAssignedUUID::new([2u8; 20]));
    let basic_id = BasicID::new(ua_type, uas_id);
    let message_type = MessageType::BasicID(basic_id);
    let message = Message::new(message_type);

    let pack = Pack::try_from_messages(&[message]).unwrap();

    let mut first_slot = vec![0u8; 25];
    message.try_serialize(&mut first_slot).unwrap();
    let mut encoded_messages = [0u8; 225];
    encoded_messages[..25].clone_from_slice(&first_slot);

    assert_eq!(pack.try_get_message(0).unwrap().unwrap(), message);
    assert_eq!(pack.number_of_messages(), 1);
    assert_eq!(pack.messages(), encoded_messages);
}

#[test]
fn pack_test_encode() {
    let operator_id = OperatorID::new(OperatorIDType::OperatorID, [2u8; 20]);

    let message = Message::new(MessageType::OperatorID(operator_id));

    let mut encoded_message = vec![0u8; 25];
    message.try_serialize(&mut encoded_message).unwrap();

    let pack = Pack::try_from_messages(&[message]).unwrap();

    let mut encoded = vec![0u8; total_len(1)];
    pack.try_serialize(&mut encoded).unwrap();

    assert_eq!(encoded[0], Pack::MESSAGES_LENGTH as u8);
    assert_eq!(encoded[1], 1);
    assert_eq!(encoded[2..], encoded_message);
}

#[test]
fn test_encode_two() {
    let operator_id = Message::new(MessageType::OperatorID(OperatorID::new(
        OperatorIDType::OperatorID,
        [2u8; 20],
    )));
    let basic_id = Message::new(MessageType::BasicID(BasicID::new(
        UAType::Aeroplane,
        UASID::UTMAssignedUUID(UTMAssignedUUID::new([2u8; 20])),
    )));

    let mut encoded_operator_id_message = vec![0u8; 25];
    operator_id
        .try_serialize(&mut encoded_operator_id_message)
        .unwrap();

    let mut encoded_basic_id_message = vec![0u8; 25];
    basic_id
        .try_serialize(&mut encoded_basic_id_message)
        .unwrap();

    let pack = Pack::try_from_messages(&[operator_id, basic_id]).unwrap();

    let mut encoded = vec![0u8; total_len(2)];
    pack.try_serialize(&mut encoded).unwrap();

    assert_eq!(encoded[0], Pack::MESSAGES_LENGTH as u8);
    assert_eq!(encoded[1], 2);
    assert_eq!(encoded[2..27], encoded_operator_id_message);
    assert_eq!(encoded[27..52], encoded_basic_id_message);
}

#[test]
fn pack_test_encode_fails_invalid_length() {
    let mut too_short = vec![0u8; 26];
    let mut too_long = vec![0u8; 28];

    let operator_id = Message::new(MessageType::OperatorID(OperatorID::new(
        OperatorIDType::OperatorID,
        [2u8; 20],
    )));
    let pack = Pack::try_from_messages(&[operator_id]).unwrap();

    assert!(pack.try_serialize(&mut too_short).is_err());
    assert!(pack.try_serialize(&mut too_long).is_err());
}

#[test]
fn pack_test_decode() {
    let operator_id = Message::new(MessageType::OperatorID(OperatorID::new(
        OperatorIDType::OperatorID,
        [2u8; 20],
    )));

    let mut encoded_operator_id_message = vec![0u8; 25];
    operator_id
        .try_serialize(&mut encoded_operator_id_message)
        .unwrap();

    let mut encoded = vec![0u8; total_len(1)];
    encoded[0] = Pack::MESSAGES_LENGTH as u8;
    encoded[1] = 1;
    encoded[2..27].clone_from_slice(&encoded_operator_id_message);

    let pack = Pack::try_from_messages(&[operator_id]).unwrap();

    assert_eq!(Pack::try_from_bytes(&encoded).unwrap(), pack);
}

#[test]
fn test_decode_two() {
    let operator_id = Message::new(MessageType::OperatorID(OperatorID::new(
        OperatorIDType::OperatorID,
        [2u8; 20],
    )));
    let basic_id = Message::new(MessageType::BasicID(BasicID::new(
        UAType::Aeroplane,
        UASID::UTMAssignedUUID(UTMAssignedUUID::new([2u8; 20])),
    )));

    let mut encoded_operator_id_message = vec![0u8; 25];
    operator_id
        .try_serialize(&mut encoded_operator_id_message)
        .unwrap();

    let mut encoded_basic_id_message = vec![0u8; 25];
    basic_id
        .try_serialize(&mut encoded_basic_id_message)
        .unwrap();

    let mut encoded = vec![0u8; total_len(2)];
    encoded[0] = Pack::MESSAGES_LENGTH as u8;
    encoded[1] = 2;
    encoded[2..27].clone_from_slice(&encoded_operator_id_message);
    encoded[27..52].clone_from_slice(&encoded_basic_id_message);

    let pack = Pack::try_from_messages(&[operator_id, basic_id]).unwrap();

    assert_eq!(Pack::try_from_bytes(&encoded).unwrap(), pack);
}

#[test]
fn pack_decode_fails_invalid_length() {
    let too_short = [0u8; 26];
    let too_long = [0u8; 28];

    assert!(Pack::try_from_bytes(&too_short).is_err());
    assert!(Pack::try_from_bytes(&too_long).is_err());
}

#[test]
fn test_try_from_messages_fails_invalid_length() {
    let operator_id = Message::new(MessageType::OperatorID(OperatorID::new(
        OperatorIDType::OperatorID,
        [2u8; 20],
    )));

    let result = Pack::try_from_messages(&[
        operator_id,
        operator_id,
        operator_id,
        operator_id,
        operator_id,
        operator_id,
        operator_id,
        operator_id,
        operator_id,
        operator_id,
    ]);

    assert!(result.is_err());
}
