//! Tests for the basic identification message and its identifier variants.

use drone_id::basic_id::BasicID;
use drone_id::basic_id::SessionID;
use drone_id::basic_id::SessionIDType;
use drone_id::basic_id::UAType;
use drone_id::basic_id::UASID;
use drone_id::basic_id::UTMAssignedUUID;
use drone_id::try_serialize::TrySerialize;

#[test]
fn test_new() {
    let ua_type = UAType::Ornithopter;
    let uas_id = UASID::NotProvided;

    let basic_id = BasicID::new(ua_type, uas_id);

    assert_eq!(basic_id.ua_type(), ua_type);
    assert_eq!(basic_id.uas_id(), uas_id);
}

#[test]
fn mod_test_encode() {
    let ua_type = UAType::Ornithopter;
    let uas_id = UASID::NotProvided;

    let basic_id = BasicID::new(ua_type, uas_id);

    let mut encoded = vec![0u8; 24];
    basic_id.try_serialize(&mut encoded).unwrap();

    assert_eq!(encoded[0], ua_type.encode());
    assert_eq!(&encoded[1..], &[0u8; 23]);
}

#[test]
fn test_decode() {
    let ua_type = UAType::Ornithopter;
    let uas_id = UASID::NotProvided;

    let basic_id = BasicID::new(ua_type, uas_id);

    let mut encoded = vec![0u8; 24];
    basic_id.try_serialize(&mut encoded).unwrap();

    let decoded = BasicID::try_from_bytes(&encoded).unwrap();

    assert_eq!(basic_id, decoded);
}

#[test]
fn mod_test_encode_fails_invalid_length() {
    let mut too_short = vec![0u8; 23];
    let mut too_long = vec![0u8; 25];

    let basic_id = BasicID::new(UAType::Ornithopter, UASID::NotProvided);

    assert!(basic_id.try_serialize(&mut too_short).is_err());
    assert!(basic_id.try_serialize(&mut too_long).is_err());
}

#[test]
fn mod_test_decode_fails_invalid_length() {
    let too_short = [0u8; 23];
    let too_long = [0u8; 25];

    assert!(BasicID::try_from_bytes(&too_short).is_err());
    assert!(BasicID::try_from_bytes(&too_long).is_err());
}

#[test]
fn ua_type_test_encode() {
    let ornithopter = UAType::Ornithopter;

    let encoded = ornithopter.encode();

    assert_eq!(5u8, encoded);
}

#[test]
fn ua_type_test_decode() {
    let ornithopter_number = 5u8;

    let ornithopter = UAType::Ornithopter;

    assert_eq!(ornithopter, UAType::decode(ornithopter_number).unwrap());
}

#[test]
fn ua_type_test_decode_fails_invalid_value() {
    let invalid = 15;

    assert!(UAType::decode(invalid).is_err());
}

#[test]
fn test_encode() {
    let uuid = [2u8; 20];

    let utm_assigned_uuid = UTMAssignedUUID::try_from_bytes(&uuid).unwrap();

    let uas_id = UASID::UTMAssignedUUID(utm_assigned_uuid);

    let mut encoded = vec![0u8; 21];
    uas_id.try_serialize(&mut encoded).unwrap();

    assert_eq!(encoded[0] >> 4, 3);
    assert_eq!(encoded[1..], uuid);
}

#[test]
fn uas_id_decode_bytes() {
    let uuid = [2u8; 20];

    let utm_assigned_uuid = UTMAssignedUUID::try_from_bytes(&uuid).unwrap();

    let uas_id = UASID::UTMAssignedUUID(utm_assigned_uuid);

    let mut encoded = vec![0u8; 21];
    uas_id.try_serialize(&mut encoded).unwrap();

    let decoded = UASID::try_from_bytes(&encoded).unwrap();

    assert_eq!(uas_id, decoded);
}

#[test]
fn test_encode_fails_invalid_length() {
    let mut too_short = vec![0u8; 20];
    let mut too_long = vec![0u8; 22];

    let utm_assigned_uuid = UTMAssignedUUID::try_from_bytes(&[2u8; 20]).unwrap();

    let uas_id = UASID::UTMAssignedUUID(utm_assigned_uuid);

    assert!(uas_id.try_serialize(&mut too_short).is_err());
    assert!(uas_id.try_serialize(&mut too_long).is_err());
}

#[test]
fn test_decode_fails_invalid_length() {
    let too_short = [0u8; 20];
    let too_long = [0u8; 22];

    assert!(UASID::try_from_bytes(&too_short).is_err());
    assert!(UASID::try_from_bytes(&too_long).is_err());
}

#[test]
fn test_decode_fails_invalid_uas_id_type() {
    let invalid = 5;

    let mut encoded = [0u8; 21];
    encoded[0] = invalid << 4;

    assert!(UASID::try_from_bytes(&encoded).is_err());
}

#[test]
fn test_session_id_type_encode_decode() {
    let ietf_drip_byte = 1;

    let decoded = SessionIDType::decode(ietf_drip_byte).unwrap();

    let encoded = decoded.encode();

    assert_eq!(ietf_drip_byte, encoded);
}

#[test]
fn test_session_id_type_decode_invalid() {
    let invalid = 3;

    assert!(SessionIDType::decode(invalid).is_err());
}

#[test]
fn test_new_session_id() {
    let ietf_drip = SessionIDType::IETFDroneRemoteIDProtocol;
    let id = [2u8; 19];

    let session_id = SessionID::new(ietf_drip, id);

    assert_eq!(session_id.session_id_type(), ietf_drip);
    assert_eq!(session_id.id(), id);
}

#[test]
fn test_session_id_encode() {
    let ietf_drip = SessionIDType::IETFDroneRemoteIDProtocol;
    let id = [2u8; 19];

    let session_id = SessionID::new(ietf_drip, id);

    let mut encoded = vec![0u8; 20];
    session_id.try_serialize(&mut encoded).unwrap();

    assert_eq!(encoded[0], ietf_drip.encode());
    assert_eq!(&encoded[1..], id.as_ref());
}

#[test]
fn test_session_id_decode() {
    let ietf_drip = SessionIDType::IETFDroneRemoteIDProtocol;
    let id = [2u8; 19];

    let session_id = SessionID::new(ietf_drip, id);

    let mut encoded = vec![0u8; 20];
    session_id.try_serialize(&mut encoded).unwrap();

    let decoded = SessionID::try_from_bytes(&encoded).unwrap();

    assert_eq!(decoded, session_id);
}

#[test]
fn test_session_id_encode_fails_invalid_length() {
    let mut too_short = vec![0u8; 19];
    let mut too_long = vec![0u8; 21];

    let session_id = SessionID::new(SessionIDType::IETFDroneRemoteIDProtocol, [2u8; 19]);

    assert!(session_id.try_serialize(&mut too_short).is_err());
    assert!(session_id.try_serialize(&mut too_long).is_err());
}

#[test]
fn test_session_id_decode_fails_invalid_length() {
    let too_short = [0u8; 19];
    let too_long = [0u8; 21];

    assert!(SessionID::try_from_bytes(&too_short).is_err());
    assert!(SessionID::try_from_bytes(&too_long).is_err());
}

#[test]
fn utm_assigned_uuid_test_encode() {
    let uuid = [2u8; 20];

    let utm_assigned_uuid = UTMAssignedUUID::try_from_bytes(&uuid).unwrap();

    assert_eq!(utm_assigned_uuid.uuid(), uuid);
}

#[test]
fn utm_assigned_uuid_test_decode() {
    let encoded = [2u8; 20];

    let decoded = UTMAssignedUUID::try_from_bytes(&encoded).unwrap();

    assert_eq!(encoded, decoded.uuid());
}

#[test]
fn utm_assigned_uuid_test_encode_fails_invalid_length() {
    let too_short = [0u8; 19];
    let too_long = [0u8; 21];

    assert!(UTMAssignedUUID::try_from_bytes(&too_short).is_err());
    assert!(UTMAssignedUUID::try_from_bytes(&too_long).is_err());
}

#[test]
fn utm_assigned_uuid_test_decode_fails_invalid_length() {
    let mut too_short = vec![0u8; 19];
    let mut too_long = vec![0u8; 21];

    let utm_assigned_uuid = UTMAssignedUUID::try_from_bytes(&[2u8; 20]).unwrap();

    assert!(utm_assigned_uuid.try_serialize(&mut too_short).is_err());
    assert!(utm_assigned_uuid.try_serialize(&mut too_long).is_err());
}
