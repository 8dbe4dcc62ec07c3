//! Tests for the serial number and registration identifier codecs.

use drone_id::basic_id::RegistrationID;
use drone_id::basic_id::SerialNumber;
use drone_id::try_serialize::TrySerialize;

fn str_to_fixed_bytes(s: &str) -> [u8; 20] {
    assert!(s.len() < 20);

    let mut fixed_bytes = [0u8; 20];

    fixed_bytes[..s.len()].clone_from_slice(s.as_bytes());

    fixed_bytes
}

#[test]
fn serial_number_test_try_new() {
    let mfr_code = "ASDF";
    let mfr_serial = "1234";

    let serial_number = SerialNumber::try_new(mfr_code, mfr_serial).unwrap();

    assert_eq!(serial_number.mfr_code().as_slice(), mfr_code.as_bytes());
    assert_eq!(serial_number.mfr_serial().as_slice(), mfr_serial.as_bytes());
}

#[test]
fn test_try_new_fails_invalid_length() {
    let mfr_code = "ASDF";
    let mfr_serial = "1234";

    let too_short_mfr_code = "AAA";
    let too_long_mfr_code = "AAAAA";

    let too_short_mfr_serial = "";
    let too_long_mfr_serial = "AAAAAAAAAAAAAAAA";

    assert!(SerialNumber::try_new(too_short_mfr_code, mfr_serial).is_err());
    assert!(SerialNumber::try_new(too_long_mfr_code, mfr_serial).is_err());
    assert!(SerialNumber::try_new(mfr_code, too_short_mfr_serial).is_err());
    assert!(SerialNumber::try_new(mfr_code, too_long_mfr_serial).is_err());
}

#[test]
fn test_try_new_fails_invalid_chars() {
    let mfr_code = "ASDF";
    let mfr_serial = "1234";

    let invalid_mfr_code = "λλλλ";
    let invalid_mfr_serial = "λλλλ";

    assert!(SerialNumber::try_new(mfr_code, invalid_mfr_serial).is_err());
    assert!(SerialNumber::try_new(invalid_mfr_code, mfr_serial).is_err());
}

#[test]
fn serial_number_test_encode() {
    let mfr_code = "ASDF";
    let mfr_serial = "1234";
    let total = str_to_fixed_bytes("ASDF41234");

    let serial_number = SerialNumber::try_new(mfr_code, mfr_serial).unwrap();

    let mut encoded = vec![0u8; 20];
    serial_number.try_serialize(&mut encoded).unwrap();

    assert_eq!(encoded.as_slice(), &total);
}

#[test]
fn serial_number_test_encode_fails_invalid_length() {
    let mut too_short = vec![0u8; 19];
    let mut too_long = vec![0u8; 21];

    let serial_number = SerialNumber::try_new("ASDF", "1324").unwrap();

    assert!(serial_number.try_serialize(&mut too_short).is_err());
    assert!(serial_number.try_serialize(&mut too_long).is_err());
}

#[test]
fn serial_number_test_decode() {
    let mfr_code = "ASDF";
    let mfr_serial = "1234";
    let total = str_to_fixed_bytes("ASDF41234");

    let serial_number = SerialNumber::try_new(mfr_code, mfr_serial).unwrap();

    let decoded = SerialNumber::try_from_bytes(&total).unwrap();

    assert_eq!(serial_number, decoded);
}

#[test]
fn serial_number_test_decode_fails_invalid_length() {
    let too_short = [0u8; 19];
    let too_long = [0u8; 21];

    assert!(SerialNumber::try_from_bytes(&too_short).is_err());
    assert!(SerialNumber::try_from_bytes(&too_long).is_err());
}

#[test]
fn test_decode_fails_invalid_character() {
    let invalid = str_to_fixed_bytes("λλλλ4λλλλ");

    assert!(SerialNumber::try_from_bytes(&invalid).is_err());
}

#[test]
fn test_decode_fails_invalid_len_character() {
    let invalid = str_to_fixed_bytes("AAAAλAAAA");

    assert!(SerialNumber::try_from_bytes(&invalid).is_err());
}

#[test]
fn registration_id_test_try_new() {
    let nationality_mark = "US";
    let caa_id = "1234";

    let registration_id = RegistrationID::try_new(nationality_mark, caa_id).unwrap();

    assert_eq!(
        registration_id.nationality_mark().as_slice(),
        nationality_mark.as_bytes()
    );
    assert_eq!(registration_id.caa_id().as_slice(), caa_id.as_bytes());
}

#[test]
fn test_try_new_invalid_length() {
    let nationality_mark = "US";
    let caa_id = "123456789012345678";

    assert!(RegistrationID::try_new(nationality_mark, caa_id).is_err());
}

#[test]
fn test_try_new_invalid_char() {
    assert!(RegistrationID::try_new("A", "λ").is_err());
    assert!(RegistrationID::try_new("λ", "A").is_err());
}

#[test]
fn registration_id_test_encode() {
    let str_id = "US.1234";
    let id = str_to_fixed_bytes(str_id);

    let decoded = RegistrationID::try_from_bytes(&id).unwrap();

    let mut encoded = vec![0u8; 20];
    decoded.try_serialize(&mut encoded).unwrap();

    assert_eq!(encoded.as_slice(), &id);
    assert_eq!(encoded[0], b'U');
    assert_eq!(encoded[1], b'S');
    assert_eq!(encoded[2], b'.');
    assert_eq!(encoded[3], b'1');
    assert_eq!(encoded[4], b'2');
    assert_eq!(encoded[5], b'3');
    assert_eq!(encoded[6], b'4');
    assert_eq!(encoded[7], 0);
}

#[test]
fn registration_id_test_decode() {
    let id = str_to_fixed_bytes("US.1234");

    let decoded = RegistrationID::try_from_bytes(&id).unwrap();

    assert_eq!(decoded.nationality_mark().as_slice(), b"US");
    assert_eq!(decoded.caa_id().as_slice(), b"1234");
}

#[test]
fn registration_id_test_encode_fails_invalid_length() {
    let too_short = [0u8; 19];
    let too_long = [0u8; 21];

    assert!(RegistrationID::try_from_bytes(&too_short).is_err());
    assert!(RegistrationID::try_from_bytes(&too_long).is_err());
}

#[test]
fn registration_id_test_decode_fails_invalid_length() {
    let id = str_to_fixed_bytes("US.1234");
    let decoded = RegistrationID::try_from_bytes(&id).unwrap();

    let mut too_short = vec![0u8; 19];
    let mut too_long = vec![0u8; 21];

    assert!(decoded.try_serialize(&mut too_short).is_err());
    assert!(decoded.try_serialize(&mut too_long).is_err());
}

#[test]
fn test_encode_fails_invalid_char() {
    let str_id = "US.1234λ";
    let id = str_to_fixed_bytes(str_id);

    assert!(RegistrationID::try_from_bytes(&id).is_err());
}

#[test]
fn test_encode_fails_too_many_dots() {
    let str_id = "US.1234.";
    let id = str_to_fixed_bytes(str_id);

    assert!(RegistrationID::try_from_bytes(&id).is_err());
}

#[test]
fn test_encode_fails_too_few_dots() {
    let str_id = "US1234";
    let id = str_to_fixed_bytes(str_id);

    assert!(RegistrationID::try_from_bytes(&id).is_err());
}
