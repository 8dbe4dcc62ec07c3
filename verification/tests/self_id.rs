//! Tests for the self-identification message and its type codec.

use drone_id::self_id::DescriptionType;
use drone_id::self_id::SelfID;
use drone_id::try_serialize::TrySerialize;

const TEXT: [u8; 23] = [
    97, 98, 111, 108, 105, 115, 104, 32, 105, 99, 101, 0, 0, 0, 0, 0, 0, 0, 0, 0, 0, 0, 0,
];

#[test]
fn test_getters() {
    let description_type = DescriptionType::Text;
    let description = TEXT;

    let self_id = SelfID::new(description_type, description);

    assert_eq!(self_id.description_type(), description_type);
    assert_eq!(self_id.description(), description);
}

#[test]
fn self_id_encode_bytes() {
    let description_type = DescriptionType::Text;
    let description = TEXT;

    let self_id = SelfID::new(DescriptionType::Text, TEXT);

    let mut encoded = vec![0u8; 24];
    self_id.try_serialize(&mut encoded).unwrap();

    let mut expected = [0u8; 24];
    expected[0] = description_type.encode();
    expected[1..].clone_from_slice(&description);

    assert_eq!(encoded.as_slice(), &expected);
}

#[test]
fn test_encode_fails_invalid_data_length() {
    let mut too_short = vec![0u8; 23];
    let mut too_long = vec![0u8; 25];

    let self_id = SelfID::new(DescriptionType::Text, TEXT);

    assert!(self_id.try_serialize(&mut too_short).is_err());
    assert!(self_id.try_serialize(&mut too_long).is_err());
}

#[test]
fn self_id_decode_bytes() {
    let description_type = DescriptionType::Text;
    let description = TEXT;

    let mut encoded = [0u8; 24];
    encoded[0] = description_type.encode();
    encoded[1..].clone_from_slice(&description);

    let expected = SelfID::new(DescriptionType::Text, TEXT);

    assert_eq!(SelfID::try_from_bytes(&encoded).unwrap(), expected);
}

#[test]
fn test_decode_fails_invalid_data_length() {
    let too_short = [0u8; 23];
    let too_long = [0u8; 25];

    assert!(SelfID::try_from_bytes(&too_short).is_err());
    assert!(SelfID::try_from_bytes(&too_long).is_err());
}

#[test]
fn description_type_test_encode() {
    let description_type = DescriptionType::Text;

    assert_eq!(description_type.encode(), 0);
}

#[test]
fn description_type_test_encode_reserved() {
    let reserved = DescriptionType::Reserved;

    assert_eq!(reserved.encode(), DescriptionType::RESERVED_THRESHOLD);
}

#[test]
fn description_type_test_encode_private_use() {
    let private_use = DescriptionType::PrivateUse;

    assert_eq!(private_use.encode(), DescriptionType::PRIVATE_USE_THRESHOLD);
}

#[test]
fn description_type_test_decode() {
    let decoded = DescriptionType::decode(0);

    assert_eq!(decoded, DescriptionType::Text);
}

#[test]
fn description_type_test_decode_reserved() {
    let decoded = DescriptionType::decode(DescriptionType::RESERVED_THRESHOLD);

    assert_eq!(decoded, DescriptionType::Reserved);
}

#[test]
fn description_type_test_decode_private_use() {
    let decoded = DescriptionType::decode(DescriptionType::PRIVATE_USE_THRESHOLD);

    assert_eq!(decoded, DescriptionType::PrivateUse);
}
