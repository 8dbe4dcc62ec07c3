//! Tests for the operator identification message and its type codec.

use drone_id::operator_id::OperatorID;
use drone_id::operator_id::OperatorIDType;
use drone_id::try_serialize::TrySerialize;

#[test]
fn mod_test_getters() {
    let operator_id_type = OperatorIDType::OperatorID;
    let id = [2u8; 20];

    let operator_id = OperatorID::new(operator_id_type, id);

    assert_eq!(operator_id.operator_id_type(), operator_id_type);
    assert_eq!(operator_id.id(), id);
}

#[test]
fn operator_id_encode_bytes() {
    let operator_id_type = OperatorIDType::OperatorID;
    let id = [2u8; 20];

    let operator_id = OperatorID::new(operator_id_type, id);

    let mut encoded = vec![0u8; 24];
    operator_id.try_serialize(&mut encoded).unwrap();

    assert_eq!(encoded[0], operator_id_type.encode());
    assert_eq!(encoded[1..21], id);
}

#[test]
fn mod_test_encode_fails_invalid_data_length() {
    let mut too_short = vec![0u8; 19];
    let mut too_long = vec![0u8; 21];

    let operator_id = OperatorID::new(OperatorIDType::OperatorID, [2u8; 20]);

    assert!(operator_id.try_serialize(&mut too_short).is_err());
    assert!(operator_id.try_serialize(&mut too_long).is_err());
}

#[test]
fn operator_id_decode_bytes() {
    let mut encoded = [0u8; 24];
    encoded[1..21].clone_from_slice(&[2u8; 20]);

    let expected = OperatorID::new(OperatorIDType::OperatorID, [2u8; 20]);

    assert_eq!(OperatorID::try_from_bytes(&encoded).unwrap(), expected);
}

#[test]
fn mod_test_decode_fails_invalid_data_length() {
    let too_short = [0u8; 19];
    let too_long = [0u8; 21];

    assert!(OperatorID::try_from_bytes(&too_short).is_err());
    assert!(OperatorID::try_from_bytes(&too_long).is_err());
}

#[test]
fn operator_id_type_test_encode() {
    let operator_id_type = OperatorIDType::OperatorID;

    assert_eq!(operator_id_type.encode(), 0);
}

#[test]
fn operator_id_type_test_encode_reserved() {
    let reserved = OperatorIDType::Reserved;

    assert_eq!(reserved.encode(), OperatorIDType::RESERVED_THRESHOLD);
}

#[test]
fn operator_id_type_test_encode_private_use() {
    let private_use = OperatorIDType::PrivateUse;

    assert_eq!(private_use.encode(), OperatorIDType::PRIVATE_USE_THRESHOLD);
}

#[test]
fn operator_id_type_test_decode() {
    let decoded = OperatorIDType::decode(0);

    assert_eq!(decoded, OperatorIDType::OperatorID);
}

#[test]
fn operator_id_type_test_decode_reserved() {
    let decoded = OperatorIDType::decode(OperatorIDType::RESERVED_THRESHOLD);

    assert_eq!(decoded, OperatorIDType::Reserved);
}

#[test]
fn operator_id_type_test_decode_private_use() {
    let decoded = OperatorIDType::decode(OperatorIDType::PRIVATE_USE_THRESHOLD);

    assert_eq!(decoded, OperatorIDType::PrivateUse);
}
