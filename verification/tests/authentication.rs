//! Tests for authentication pages and their type codec.

use drone_id::authentication::Authentication;
use drone_id::authentication::AuthenticationType;
use drone_id::authentication::Initial;
use drone_id::authentication::Subsequent;
use drone_id::system::Timestamp;
use drone_id::try_serialize::TrySerialize;

#[test]
fn test_encode_decode_valid() {
    let uas_id_signature = AuthenticationType::UASIDSignature;

    let encoded = uas_id_signature.encode();

    let decoded = AuthenticationType::decode(encoded).unwrap();

    assert_eq!(encoded, 1);
    assert_eq!(uas_id_signature, decoded);
}

#[test]
fn test_encode_decode_reserved() {
    let reserved = AuthenticationType::ReservedForSpec;

    let encoded = reserved.encode();

    let decoded = AuthenticationType::decode(encoded).unwrap();

    assert_eq!(encoded, AuthenticationType::RESERVED_THRESHOLD);
    assert_eq!(reserved, decoded);
}

#[test]
fn test_encode_decode_private_use() {
    let private_use = AuthenticationType::AvailableForPrivateUse;

    let encoded = private_use.encode();

    let decoded = AuthenticationType::decode(encoded).unwrap();

    assert_eq!(encoded, AuthenticationType::PRIVATE_USE_THRESHOLD);
    assert_eq!(private_use, decoded);
}

#[test]
fn test_decode_fails_value_too_large() {
    let invalid_value = AuthenticationType::MAX + 1;

    let failed = AuthenticationType::decode(invalid_value).is_err();

    assert!(failed);
}

#[test]
fn initial_test_try_new() {
    let authentication_type = AuthenticationType::UASIDSignature;
    let last_page_index = 0;
    let total_length = 25;
    let timestamp = Timestamp::new(1);
    let data = [2u8; 17];

    let initial = Initial::try_new(
        authentication_type,
        last_page_index,
        total_length,
        timestamp,
        data,
    )
    .unwrap();

    assert_eq!(initial.authentication_type(), authentication_type);
    assert_eq!(initial.last_page_index(), last_page_index);
    assert_eq!(initial.total_length(), total_length);
    assert_eq!(initial.timestamp(), timestamp);
    assert_eq!(initial.data(), data);
}

#[test]
fn test_try_new_fails_invalid_index() {
    let too_big_last_page_index = 16;

    assert!(Initial::try_new(
        AuthenticationType::UASIDSignature,
        too_big_last_page_index,
        25,
        Timestamp::new(1),
        [2u8; 17],
    )
    .is_err());
}

#[test]
fn test_try_new_fails_invalid_total_length() {
    let too_big_total_length = 256;

    assert!(Initial::try_new(
        AuthenticationType::UASIDSignature,
        1,
        too_big_total_length,
        Timestamp::new(1),
        [2u8; 17],
    )
    .is_err());
}

#[test]
fn initial_test_encode() {
    let authentication_type = AuthenticationType::UASIDSignature;
    let last_page_index = 0u8;
    let total_length = 25u8;
    let timestamp = Timestamp::new(1);
    let data = [2u8; 17];

    let initial = Initial::try_new(
        authentication_type,
        last_page_index as usize,
        total_length as usize,
        timestamp,
        data,
    )
    .unwrap();

    let mut encoded = vec![0u8; 24];
    initial.try_serialize(&mut encoded).unwrap();

    assert_eq!(
        encoded[0] >> 4,
        AuthenticationType::UASIDSignature.encode()
    );
    assert_eq!(encoded[1] & 0b0000_1111, last_page_index);
    assert_eq!(encoded[2], total_length);
    assert_eq!(encoded[3..7], timestamp.encode().to_le_bytes());
    assert_eq!(encoded[7..], data);
}

#[test]
fn initial_test_decode() {
    let initial = Initial::try_new(
        AuthenticationType::UASIDSignature,
        0,
        25,
        Timestamp::new(1),
        [2u8; 17],
    )
    .unwrap();

    let mut encoded = vec![0u8; 24];
    initial.try_serialize(&mut encoded).unwrap();

    let decoded = Initial::try_from_bytes(&encoded).unwrap();

    assert_eq!(initial, decoded);
}

#[test]
fn initial_test_encode_fails_value_length() {
    let too_short = [0u8; 23];
    let too_long = [0u8; 25];

    assert!(Initial::try_from_bytes(&too_short).is_err());
    assert!(Initial::try_from_bytes(&too_long).is_err());
}

#[test]
fn initial_test_decode_fails_value_length() {
    let mut too_short = vec![0u8; 23];
    let mut too_long = vec![0u8; 25];

    let initial = Initial::try_new(
        AuthenticationType::UASIDSignature,
        0,
        25,
        Timestamp::new(1),
        [2u8; 17],
    )
    .unwrap();

    assert!(initial.try_serialize(&mut too_short).is_err());
    assert!(initial.try_serialize(&mut too_long).is_err());
}

#[test]
fn mod_test_encode_decode() {
    let authentication_type = AuthenticationType::UASIDSignature;
    let last_page_index = 0u8;
    let total_length = 25u8;
    let timestamp = Timestamp::new(1);
    let data = [2u8; 17];

    let initial = Initial::try_new(
        authentication_type,
        last_page_index as usize,
        total_length as usize,
        timestamp,
        data,
    )
    .unwrap();

    let authentication = Authentication::Initial(initial);

    let mut encoded = vec![0u8; 24];
    authentication.try_serialize(&mut encoded).unwrap();

    let decoded = Authentication::try_from_bytes(&encoded).unwrap();

    assert_eq!(authentication, decoded);

    assert_eq!(
        encoded[0] >> 4,
        AuthenticationType::UASIDSignature.encode()
    );
    assert_eq!(encoded[1] & 0b0000_1111, last_page_index);
    assert_eq!(encoded[2], total_length);
    assert_eq!(encoded[3..7], timestamp.encode().to_le_bytes());
    assert_eq!(encoded[7..], data);
}

#[test]
fn mod_test_decode() {
    let initial = Initial::try_new(
        AuthenticationType::UASIDSignature,
        0,
        25,
        Timestamp::new(1),
        [2u8; 17],
    )
    .unwrap();

    let authentication = Authentication::Initial(initial);

    let mut encoded = vec![0u8; 24];
    authentication.try_serialize(&mut encoded).unwrap();

    let decoded = Authentication::try_from_bytes(&encoded).unwrap();

    assert_eq!(authentication, decoded);
}

#[test]
fn mod_test_encode_fails_value_length() {
    let too_short = [0u8; 23];
    let too_long = [0u8; 25];

    assert!(Initial::try_from_bytes(&too_short).is_err());
    assert!(Initial::try_from_bytes(&too_long).is_err());
}

#[test]
fn mod_test_decode_fails_value_length() {
    let mut too_short = vec![0u8; 23];
    let mut too_long = vec![0u8; 25];

    let initial = Initial::try_new(
        AuthenticationType::UASIDSignature,
        0,
        25,
        Timestamp::new(1),
        [2u8; 17],
    )
    .unwrap();

    let authentication = Authentication::Initial(initial);

    assert!(authentication.try_serialize(&mut too_short).is_err());
    assert!(authentication.try_serialize(&mut too_long).is_err());
}

#[test]
fn subsequent_test_try_new() {
    let authentication_type = AuthenticationType::UASIDSignature;
    let page_number = 1;
    let data = [2u8; 23];

    let subsequent = Subsequent::try_new(authentication_type, page_number, data).unwrap();

    assert_eq!(subsequent.authentication_type(), authentication_type);
    assert_eq!(subsequent.page_number(), page_number);
    assert_eq!(subsequent.data(), data);
}

#[test]
fn test_try_new_fails_invalid_page_number() {
    let authentication_type = AuthenticationType::UASIDSignature;
    let too_big_page_number = 16;
    let data = [2u8; 23];

    assert!(Subsequent::try_new(authentication_type, too_big_page_number, data).is_err());
}

#[test]
fn subsequent_test_encode() {
    let authentication_type = AuthenticationType::UASIDSignature;
    let page_number = 1u8;
    let data = [2u8; 23];

    let subsequent = Subsequent::try_new(authentication_type, page_number as usize, data).unwrap();

    let mut encoded = vec![0u8; 24];
    subsequent.try_serialize(&mut encoded).unwrap();

    assert_eq!(
        encoded[0] >> 4,
        AuthenticationType::UASIDSignature.encode()
    );
    assert_eq!(encoded[0] & 0b0000_1111, page_number);
    assert_eq!(encoded[1..], data);
}

#[test]
fn subsequent_test_decode() {
    let subsequent =
        Subsequent::try_new(AuthenticationType::UASIDSignature, 1, [2u8; 23]).unwrap();

    let mut encoded = vec![0u8; 24];
    subsequent.try_serialize(&mut encoded).unwrap();

    let decoded = Subsequent::try_from_bytes(&encoded).unwrap();

    assert_eq!(subsequent, decoded);
}

#[test]
fn subsequent_test_encode_fails_value_length() {
    let too_short = [0u8; 23];
    let too_long = [0u8; 25];

    assert!(Subsequent::try_from_bytes(&too_short).is_err());
    assert!(Subsequent::try_from_bytes(&too_long).is_err());
}

#[test]
fn subsequent_test_decode_fails_value_length() {
    let mut too_short = vec![0u8; 23];
    let mut too_long = vec![0u8; 25];

    let subsequent =
        Subsequent::try_new(AuthenticationType::UASIDSignature, 0, [2u8; 23]).unwrap();

    assert!(subsequent.try_serialize(&mut too_short).is_err());
    assert!(subsequent.try_serialize(&mut too_long).is_err());
}
