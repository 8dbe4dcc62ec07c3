//! Concrete cases for the crate-wide properties: round trips, clamping,
//! threshold bands, length gating, pack invariants, protocol-version
//! gating, and end-to-end scenarios.

use drone_id::basic_id::BasicID;
use drone_id::basic_id::UAType;
use drone_id::basic_id::UASID;
use drone_id::basic_id::UTMAssignedUUID;
use drone_id::error::Error;
use drone_id::location::Altitude;
use drone_id::location::GroundSpeed;
use drone_id::location::HorizontalAccuracy;
use drone_id::location::Latitude;
use drone_id::location::Longitude;
use drone_id::location::SpeedAccuracy;
use drone_id::location::Timestamp;
use drone_id::location::TimestampAccuracy;
use drone_id::location::TrackDirection;
use drone_id::location::VerticalAccuracy;
use drone_id::location::VerticalSpeed;
use drone_id::messages::Message;
use drone_id::messages::MessageType;
use drone_id::operator_id::OperatorID;
use drone_id::operator_id::OperatorIDType;
use drone_id::pack::Pack;
use drone_id::self_id::DescriptionType;
use drone_id::system::OperatingAreaRadius;
use drone_id::try_serialize::TrySerialize;

#[test]
fn scalar_round_trips() {
    // Every scalar codec: decoding an encoded known value yields it back.
    assert_eq!(Altitude::decode(Altitude::Known(10).encode()), Altitude::Known(10));
    assert_eq!(Altitude::decode(Altitude::Known(-1999).encode()), Altitude::Known(-1999));
    assert_eq!(
        Latitude::decode(Latitude::Known(450_000_000).encode()),
        Latitude::Known(450_000_000)
    );
    assert_eq!(
        Longitude::decode(Longitude::Known(-1_800_000_000).encode()),
        Longitude::Known(-1_800_000_000)
    );
    let (flag, raw) = GroundSpeed::Known(100).encode();
    assert_eq!(GroundSpeed::decode(flag, raw), GroundSpeed::Known(100));
    assert_eq!(
        VerticalSpeed::decode(VerticalSpeed::Known(-124).encode()),
        VerticalSpeed::Known(-124)
    );
    let (east_west, angle) = TrackDirection::Known(360).encode();
    assert_eq!(TrackDirection::decode(east_west, angle), TrackDirection::Known(360));
    assert_eq!(Timestamp::decode(Timestamp::Known(36_000).encode()), Timestamp::Known(36_000));
    assert_eq!(
        TimestampAccuracy::decode(TimestampAccuracy::Known(15).encode()),
        TimestampAccuracy::Known(15)
    );
    assert_eq!(
        HorizontalAccuracy::decode(HorizontalAccuracy::Known(12).encode()),
        HorizontalAccuracy::Known(12)
    );
    assert_eq!(
        VerticalAccuracy::decode(VerticalAccuracy::Known(6).encode()),
        VerticalAccuracy::Known(6)
    );
    assert_eq!(
        SpeedAccuracy::decode(SpeedAccuracy::Known(4).encode()),
        SpeedAccuracy::Known(4)
    );
    let radius = OperatingAreaRadius::try_new(2_550).unwrap();
    assert_eq!(OperatingAreaRadius::decode(radius.encode()), radius);
}

#[test]
fn sentinel_raw_round_trips() {
    // Sentinel and boundary raw codes come back unchanged; the ground speed
    // byte 255 round-trips to unknown and back to 255 under either flag.
    assert_eq!(Altitude::decode(0).encode(), 0);
    assert_eq!(Latitude::decode(0).encode(), 0);
    assert_eq!(Longitude::decode(0).encode(), 0);
    assert_eq!(GroundSpeed::decode(true, 255).encode(), (false, 255));
    assert_eq!(GroundSpeed::decode(false, 255).encode(), (false, 255));
    assert_eq!(VerticalSpeed::decode(126).encode(), 126);
    assert_eq!(Timestamp::decode(0xffff).encode(), 0xffff);
    assert_eq!(TimestampAccuracy::decode(0).encode(), 0);
    assert_eq!(HorizontalAccuracy::decode(13).encode(), 13);
    assert_eq!(VerticalAccuracy::decode(7).encode(), 7);
    assert_eq!(SpeedAccuracy::decode(5).encode(), 5);
}

#[test]
fn clamping_is_idempotent() {
    // Manually constructed out-of-range known values encode to the nearest
    // in-range raw code, without panicking.
    assert_eq!(
        Latitude::Known(910_000_000).encode(),
        Latitude::Known(900_000_000).encode()
    );
    assert_eq!(
        Longitude::Known(-1_810_000_000).encode(),
        Longitude::Known(-1_800_000_000).encode()
    );
    assert_eq!(Altitude::Known(70_000).encode(), Altitude::Known(63_535).encode());
    assert_eq!(Altitude::Known(-9_000).encode(), Altitude::Known(-2_000).encode());
    assert_eq!(GroundSpeed::Known(5_000).encode(), GroundSpeed::Known(1_016).encode());
    assert_eq!(GroundSpeed::Known(-4).encode(), GroundSpeed::Known(0).encode());
    assert_eq!(VerticalSpeed::Known(500).encode(), VerticalSpeed::Known(124).encode());
    assert_eq!(TrackDirection::Known(1_000).encode(), TrackDirection::Known(362).encode());
    assert_eq!(Timestamp::Known(40_000).encode(), 36_001);
    assert_eq!(TimestampAccuracy::Known(100).encode(), 15);
}

#[test]
fn threshold_bands() {
    // Raw codes at or above a type's reserved threshold decode to the
    // reserved variant; codes at or above the private-use threshold decode
    // to the private-use variant.
    assert_eq!(HorizontalAccuracy::decode(13), HorizontalAccuracy::Reserved);
    assert_eq!(HorizontalAccuracy::decode(255), HorizontalAccuracy::Reserved);
    assert_eq!(VerticalAccuracy::decode(7), VerticalAccuracy::Reserved);
    assert_eq!(VerticalAccuracy::decode(15), VerticalAccuracy::Reserved);
    assert_eq!(SpeedAccuracy::decode(5), SpeedAccuracy::Reserved);
    assert_eq!(DescriptionType::decode(3), DescriptionType::Reserved);
    assert_eq!(DescriptionType::decode(200), DescriptionType::Reserved);
    assert_eq!(DescriptionType::decode(201), DescriptionType::PrivateUse);
    assert_eq!(DescriptionType::decode(255), DescriptionType::PrivateUse);
    assert_eq!(OperatorIDType::decode(1), OperatorIDType::Reserved);
    assert_eq!(OperatorIDType::decode(200), OperatorIDType::Reserved);
    assert_eq!(OperatorIDType::decode(201), OperatorIDType::PrivateUse);
    assert_eq!(OperatorIDType::decode(255), OperatorIDType::PrivateUse);
}

#[test]
fn length_gating_is_exact() {
    // A buffer one byte off the exact size is rejected with the length
    // error, on decode and on encode.
    let short = [0u8; 23];
    let long = [0u8; 25];
    assert_eq!(
        BasicID::try_from_bytes(&short).unwrap_err(),
        Error::InvalidDataLength
    );
    assert_eq!(
        BasicID::try_from_bytes(&long).unwrap_err(),
        Error::InvalidDataLength
    );

    let message = Message::new(MessageType::BasicID(BasicID::new(
        UAType::Ornithopter,
        UASID::NotProvided,
    )));
    let mut short_message = vec![0u8; 24];
    let mut long_message = vec![0u8; 26];
    assert_eq!(
        message.try_serialize(&mut short_message).unwrap_err(),
        Error::InvalidDataLength
    );
    assert_eq!(
        message.try_serialize(&mut long_message).unwrap_err(),
        Error::InvalidDataLength
    );

    // The buffers were left untouched.
    assert_eq!(short_message, vec![0u8; 24]);
    assert_eq!(long_message, vec![0u8; 26]);

    // An empty buffer cannot be a message at all.
    let empty: [u8; 0] = [];
    assert_eq!(
        Message::try_from_bytes(&empty).unwrap_err(),
        Error::InvalidDataLength
    );
}

#[test]
fn pack_of_ten_fails_with_invalid_integer() {
    let message = Message::new(MessageType::OperatorID(OperatorID::new(
        OperatorIDType::OperatorID,
        [2u8; 20],
    )));
    let ten = [message; 10];

    assert_eq!(
        Pack::try_from_messages(&ten).unwrap_err(),
        Error::InvalidInteger
    );
}

#[test]
fn pack_rejects_nested_pack_element() {
    // A pack whose only element carries the pack nibble in its first byte.
    let mut encoded = vec![0u8; 27];
    encoded[0] = 25;
    encoded[1] = 1;
    encoded[2] = 0xf2;

    let pack = Pack::try_from_bytes(&encoded).unwrap();

    assert_eq!(
        pack.try_get_message(0).unwrap().unwrap_err(),
        Error::CannotRecursivelyPack
    );
}

#[test]
fn pack_index_beyond_count_is_no_element() {
    let message = Message::new(MessageType::OperatorID(OperatorID::new(
        OperatorIDType::OperatorID,
        [2u8; 20],
    )));
    let pack = Pack::try_from_messages(&[message]).unwrap();

    assert!(pack.try_get_message(1).is_none());
    assert!(pack.try_get_message(255).is_none());
}

#[test]
fn empty_pack_round_trips() {
    let pack = Pack::try_from_messages(&[]).unwrap();

    let mut encoded = vec![0u8; 2];
    pack.try_serialize(&mut encoded).unwrap();

    assert_eq!(encoded, vec![25u8, 0u8]);
    assert_eq!(Pack::try_from_bytes(&encoded).unwrap(), pack);
    assert!(pack.try_get_message(0).is_none());
}

#[test]
fn full_pack_round_trips() {
    let message = Message::new(MessageType::OperatorID(OperatorID::new(
        OperatorIDType::OperatorID,
        [7u8; 20],
    )));
    let nine = [message; 9];
    let pack = Pack::try_from_messages(&nine).unwrap();

    let mut encoded = vec![0u8; 2 + 9 * 25];
    pack.try_serialize(&mut encoded).unwrap();

    let decoded = Pack::try_from_bytes(&encoded).unwrap();
    assert_eq!(decoded, pack);
    for index in 0..9 {
        assert_eq!(decoded.try_get_message(index).unwrap().unwrap(), message);
    }
}

#[test]
fn protocol_version_gating() {
    // Any 25-byte buffer whose low nibble of the first byte is not 0x02 is
    // rejected with the protocol-version error, whatever the rest holds.
    let mut buffer = [0x55u8; 25];
    buffer[0] = 0x03;
    assert_eq!(
        Message::try_from_bytes(&buffer).unwrap_err(),
        Error::InvalidProtocolVersion
    );

    buffer[0] = 0xf0;
    assert_eq!(
        Message::try_from_bytes(&buffer).unwrap_err(),
        Error::InvalidProtocolVersion
    );
}

#[test]
fn scenario_basic_id_message_round_trip() {
    // Build a basic identification, wrap it in a message, serialize to 25
    // bytes, and decode back to the original.
    let basic_id = BasicID::new(UAType::Ornithopter, UASID::NotProvided);
    let message = Message::new(MessageType::BasicID(basic_id));

    let mut encoded = vec![0u8; 25];
    message.try_serialize(&mut encoded).unwrap();

    // Version 2 in the low nibble, type nibble 0 in the high nibble.
    assert_eq!(encoded[0], 0x02);

    let decoded = Message::try_from_bytes(&encoded).unwrap();
    assert_eq!(decoded, message);
}

#[test]
fn scenario_two_message_pack() {
    // Pack an operator identification and a basic identification, serialize
    // the pack to 52 bytes, decode it, and re-decode both elements.
    let operator_id = Message::new(MessageType::OperatorID(OperatorID::new(
        OperatorIDType::OperatorID,
        [2u8; 20],
    )));
    let basic_id = Message::new(MessageType::BasicID(BasicID::new(
        UAType::Aeroplane,
        UASID::UTMAssignedUUID(UTMAssignedUUID::new([2u8; 20])),
    )));

    let pack = Pack::try_from_messages(&[operator_id, basic_id]).unwrap();

    let mut encoded = vec![0u8; 52];
    pack.try_serialize(&mut encoded).unwrap();

    let decoded = Pack::try_from_bytes(&encoded).unwrap();

    assert_eq!(decoded.number_of_messages(), 2);
    assert_eq!(decoded.try_get_message(0).unwrap().unwrap(), operator_id);
    assert_eq!(decoded.try_get_message(1).unwrap().unwrap(), basic_id);
}

#[test]
fn scenario_ground_speed_precision_switch() {
    // 64.5 m/s lies above the 63.75 m/s precision threshold: it encodes
    // with the low-precision flag and the raw byte (64.5 - 63.75) / 0.75
    // = 1, and that pair decodes back to 64.5 m/s.  In quarter-m/s units,
    // 64.5 m/s is 258.
    let speed = GroundSpeed::Known(258);

    let (use_low_precision, raw) = speed.encode();

    assert!(use_low_precision);
    assert_eq!(raw, 1);
    assert_eq!(GroundSpeed::decode(true, 1), GroundSpeed::Known(258));
}

#[test]
fn error_variants_for_bad_content() {
    // Each content error variant, with an input that yields it.
    assert_eq!(UAType::decode(15).unwrap_err(), Error::InvalidInteger);
    assert_eq!(
        drone_id::basic_id::SerialNumber::try_new("AS?F", "1234").unwrap_err(),
        Error::InvalidSerialNumber
    );
    assert_eq!(
        drone_id::basic_id::RegistrationID::try_new("U?", "1234").unwrap_err(),
        Error::InvalidRegistrationID
    );
    assert_eq!(
        drone_id::basic_id::SerialNumber::try_new("ASDFG", "1234").unwrap_err(),
        Error::InvalidDataLength
    );
    // A pack whose length-unit marker is not 25.
    let bad_marker = [24u8, 0u8];
    assert_eq!(
        Pack::try_from_bytes(&bad_marker).unwrap_err(),
        Error::InvalidInteger
    );
}

#[test]
fn serial_number_length_marker() {
    // The length marker is an ASCII hex digit: "1" through "9", then "A"
    // through "F" for lengths 11 through 15.
    let nine = drone_id::basic_id::SerialNumber::try_new("ASDF", "123456789").unwrap();
    let mut encoded = vec![0u8; 20];
    nine.try_serialize(&mut encoded).unwrap();
    assert_eq!(encoded[4], b'9');

    let eleven = drone_id::basic_id::SerialNumber::try_new("ASDF", "12345678901").unwrap();
    let mut encoded_eleven = vec![0u8; 20];
    eleven.try_serialize(&mut encoded_eleven).unwrap();
    assert_eq!(encoded_eleven[4], b'B');

    let fifteen = drone_id::basic_id::SerialNumber::try_new("ASDF", "123456789012345").unwrap();
    let mut encoded_fifteen = vec![0u8; 20];
    fifteen.try_serialize(&mut encoded_fifteen).unwrap();
    assert_eq!(encoded_fifteen[4], b'F');
}

#[test]
fn area_count_boundary() {
    let largest = drone_id::system::AreaCount::try_new(65_000).unwrap();
    assert_eq!(largest.encode(), 65_000);
    assert_eq!(
        drone_id::system::AreaCount::try_new(65_001).unwrap_err(),
        Error::InvalidInteger
    );
}
