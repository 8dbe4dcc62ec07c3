//! Location message and the scalar codecs of its fields.
//!
//! A location message carries the aircraft's kinematic state: status,
//! direction, speeds, position, three altitudes, the accuracy of each
//! measurement, and a timestamp.
//!
//! The three altitude fields share one codec.  Pressure altitude is given
//! by a barometric measurement against the standard datum plane; geodetic
//! altitude is the distance above the WGS-84 ellipsoid; height is measured
//! against either the take-off point or the ground, as its height type
//! says.

mod altitude;
mod ground_speed;
mod height_type;
mod horizontal_accuracy;
mod latitude;
mod longitude;
mod operational_status;
mod speed_accuracy;
mod timestamp;
mod timestamp_accuracy;
mod track_direction;
mod vertical_accuracy;
mod vertical_speed;

pub use altitude::Altitude;
pub use ground_speed::GroundSpeed;
pub use height_type::HeightType;
pub use horizontal_accuracy::HorizontalAccuracy;
pub use latitude::Latitude;
pub use longitude::Longitude;
pub use operational_status::OperationalStatus;
pub use speed_accuracy::SpeedAccuracy;
pub use timestamp::Timestamp;
pub use timestamp_accuracy::TimestampAccuracy;
pub use track_direction::TrackDirection;
pub use vertical_accuracy::VerticalAccuracy;
pub use vertical_speed::VerticalSpeed;

use vstd::prelude::*;

verus! {

use crate::error::Error;
use crate::try_serialize::i32_from_le_bytes;
use crate::try_serialize::i32_to_le_bytes;
use crate::try_serialize::spec_i32_from_le_bytes;
use crate::try_serialize::spec_i32_to_le_bytes;
use crate::try_serialize::write_bytes;
use crate::try_serialize::TrySerialize;
use vstd::bytes::spec_u16_from_le_bytes;
use vstd::bytes::spec_u16_to_le_bytes;
use vstd::bytes::u16_from_le_bytes;
use vstd::bytes::u16_to_le_bytes;

/// Location message: the aircraft's kinematic state and the accuracy of
/// each measurement.
///
/// The wire format is 24 bytes.  The first byte packs four sub-fields: the
/// status nibble, the height-type bit, the east/west bit of the direction,
/// and the precision bit of the ground speed.  The last byte is untouched
/// padding.
#[derive(Clone, Copy, PartialEq, Eq, Debug)]
pub struct Location {
    /// Status of the aircraft; may signal an emergency.
    pub operational_status: OperationalStatus,
    /// Whether the height is above ground level or the take-off altitude.
    pub height_type: HeightType,
    /// Direction relative to True North.
    pub track_direction: TrackDirection,
    /// Ground speed.
    pub speed: GroundSpeed,
    /// Speed on the vertical axis.
    pub vertical_speed: VerticalSpeed,
    /// Latitude of the aircraft.
    pub latitude: Latitude,
    /// Longitude of the aircraft.
    pub longitude: Longitude,
    /// Altitude given by barometric pressure.
    pub pressure_altitude: Altitude,
    /// Altitude above the WGS-84 ellipsoid.
    pub geodetic_altitude: Altitude,
    /// Height above ground level or the take-off altitude.
    pub height: Altitude,
    /// Accuracy of the geodetic altitude.
    pub vertical_accuracy: VerticalAccuracy,
    /// Accuracy of the latitude and longitude.
    pub horizontal_accuracy: HorizontalAccuracy,
    /// Accuracy of the pressure altitude.
    pub altitude_accuracy: VerticalAccuracy,
    /// Accuracy of the ground speed.
    pub speed_accuracy: SpeedAccuracy,
    /// Tenths of a second since the most recent hour.
    pub timestamp: Timestamp,
    /// Accuracy of the timestamp.
    pub timestamp_accuracy: TimestampAccuracy,
}

impl Location {
    /// Constructs a location message.
    pub fn new(
        operational_status: OperationalStatus,
        height_type: HeightType,
        track_direction: TrackDirection,
        speed: GroundSpeed,
        vertical_speed: VerticalSpeed,
        latitude: Latitude,
        longitude: Longitude,
        pressure_altitude: Altitude,
        geodetic_altitude: Altitude,
        height: Altitude,
        vertical_accuracy: VerticalAccuracy,
        horizontal_accuracy: HorizontalAccuracy,
        altitude_accuracy: VerticalAccuracy,
        speed_accuracy: SpeedAccuracy,
        timestamp: Timestamp,
        timestamp_accuracy: TimestampAccuracy,
    ) -> (r: Location)
        ensures
            r == (Location {
                operational_status,
                height_type,
                track_direction,
                speed,
                vertical_speed,
                latitude,
                longitude,
                pressure_altitude,
                geodetic_altitude,
                height,
                vertical_accuracy,
                horizontal_accuracy,
                altitude_accuracy,
                speed_accuracy,
                timestamp,
                timestamp_accuracy,
            }),
    {
        Location {
            operational_status,
            height_type,
            track_direction,
            speed,
            vertical_speed,
            latitude,
            longitude,
            pressure_altitude,
            geodetic_altitude,
            height,
            vertical_accuracy,
            horizontal_accuracy,
            altitude_accuracy,
            speed_accuracy,
            timestamp,
            timestamp_accuracy,
        }
    }

    /// Returns the status of the aircraft.
    pub fn operational_status(&self) -> (r: OperationalStatus)
        ensures
            r == self.operational_status,
    {
        self.operational_status
    }

    /// Returns whether the height is above ground level or the take-off
    /// altitude.
    pub fn height_type(&self) -> (r: HeightType)
        ensures
            r == self.height_type,
    {
        self.height_type
    }

    /// Returns the direction relative to True North.
    pub fn track_direction(&self) -> (r: TrackDirection)
        ensures
            r == self.track_direction,
    {
        self.track_direction
    }

    /// Returns the ground speed.
    pub fn speed(&self) -> (r: GroundSpeed)
        ensures
            r == self.speed,
    {
        self.speed
    }

    /// Returns the speed on the vertical axis.
    pub fn vertical_speed(&self) -> (r: VerticalSpeed)
        ensures
            r == self.vertical_speed,
    {
        self.vertical_speed
    }

    /// Returns the latitude.
    pub fn latitude(&self) -> (r: Latitude)
        ensures
            r == self.latitude,
    {
        self.latitude
    }

    /// Returns the longitude.
    pub fn longitude(&self) -> (r: Longitude)
        ensures
            r == self.longitude,
    {
        self.longitude
    }

    /// Returns the altitude given by barometric pressure.
    pub fn pressure_altitude(&self) -> (r: Altitude)
        ensures
            r == self.pressure_altitude,
    {
        self.pressure_altitude
    }

    /// Returns the altitude above the WGS-84 ellipsoid.
    pub fn geodetic_altitude(&self) -> (r: Altitude)
        ensures
            r == self.geodetic_altitude,
    {
        self.geodetic_altitude
    }

    /// Returns the height above ground level or the take-off altitude;
    /// which of the two it is, [`Location::height_type`] says.
    pub fn height(&self) -> (r: Altitude)
        ensures
            r == self.height,
    {
        self.height
    }

    /// Returns the accuracy of the geodetic altitude.
    pub fn vertical_accuracy(&self) -> (r: VerticalAccuracy)
        ensures
            r == self.vertical_accuracy,
    {
        self.vertical_accuracy
    }

    /// Returns the accuracy of the latitude and longitude.
    pub fn horizontal_accuracy(&self) -> (r: HorizontalAccuracy)
        ensures
            r == self.horizontal_accuracy,
    {
        self.horizontal_accuracy
    }

    /// Returns the accuracy of the pressure altitude.
    pub fn altitude_accuracy(&self) -> (r: VerticalAccuracy)
        ensures
            r == self.altitude_accuracy,
    {
        self.altitude_accuracy
    }

    /// Returns the accuracy of the ground speed.
    pub fn speed_accuracy(&self) -> (r: SpeedAccuracy)
        ensures
            r == self.speed_accuracy,
    {
        self.speed_accuracy
    }

    /// Returns the tenths of a second since the most recent hour.
    pub fn timestamp(&self) -> (r: Timestamp)
        ensures
            r == self.timestamp,
    {
        self.timestamp
    }

    /// Returns the accuracy of the timestamp.
    pub fn timestamp_accuracy(&self) -> (r: TimestampAccuracy)
        ensures
            r == self.timestamp_accuracy,
    {
        self.timestamp_accuracy
    }

    /// The exact decoding relation of [`Location::try_from_bytes`]: `r` is
    /// the result that decoding the bytes `value` yields.
    pub open spec fn spec_decode_rel(value: Seq<u8>, r: Result<Location, Error>) -> bool {
        if value.len() != 24 {
            r == Err::<Location, Error>(Error::InvalidDataLength)
        } else {
            r matches Ok(l) && {
                &&& OperationalStatus::spec_decode(value[0] / 16) == Ok::<
                    OperationalStatus,
                    Error,
                >(l.operational_status)
                &&& HeightType::spec_decode((value[0] / 4) % 2) == Ok::<HeightType, Error>(
                    l.height_type,
                )
                &&& l.track_direction == TrackDirection::spec_decode(
                    (value[0] / 2) % 2 == 1,
                    value[1],
                )
                &&& l.speed == GroundSpeed::spec_decode(value[0] % 2 == 1, value[2])
                &&& l.vertical_speed == VerticalSpeed::spec_decode(value[3])
                &&& l.latitude == Latitude::spec_decode(spec_i32_from_le_bytes(value.subrange(4, 8)))
                &&& l.longitude == Longitude::spec_decode(
                    spec_i32_from_le_bytes(value.subrange(8, 12)),
                )
                &&& l.pressure_altitude == Altitude::spec_decode(
                    spec_u16_from_le_bytes(value.subrange(12, 14)),
                )
                &&& l.geodetic_altitude == Altitude::spec_decode(
                    spec_u16_from_le_bytes(value.subrange(14, 16)),
                )
                &&& l.height == Altitude::spec_decode(spec_u16_from_le_bytes(value.subrange(16, 18)))
                &&& l.vertical_accuracy == VerticalAccuracy::spec_decode(value[18] / 16)
                &&& l.horizontal_accuracy == HorizontalAccuracy::spec_decode(value[18] % 16)
                &&& l.altitude_accuracy == VerticalAccuracy::spec_decode(value[19] / 16)
                &&& l.speed_accuracy == SpeedAccuracy::spec_decode(value[19] % 16)
                &&& l.timestamp == Timestamp::spec_decode(
                    spec_u16_from_le_bytes(value.subrange(20, 22)),
                )
                &&& l.timestamp_accuracy == TimestampAccuracy::spec_decode(value[22] % 16)
            }
        }
    }

    /// Decodes a location message from a byte slice, which must be exactly
    /// 24 bytes long; the decode never fails on content, since every field
    /// codec absorbs every raw value its bits can hold.
    pub fn try_from_bytes(value: &[u8]) -> (r: Result<Location, Error>)
        ensures
            Location::spec_decode_rel(value@, r),
    {
        if value.len() != 24 {
            return Err(Error::InvalidDataLength);
        }
        let operational_status = match OperationalStatus::decode(value[0] / 16) {
            Ok(s) => s,
            Err(e) => { return Err(e) },
        };
        let height_type = match HeightType::decode((value[0] / 4) % 2) {
            Ok(h) => h,
            Err(e) => { return Err(e) },
        };
        let east_west_bit: bool = (value[0] / 2) % 2 == 1;
        let speed_low_precision: bool = value[0] % 2 == 1;
        let track_direction = TrackDirection::decode(east_west_bit, value[1]);
        let speed = GroundSpeed::decode(speed_low_precision, value[2]);
        let vertical_speed = VerticalSpeed::decode(value[3]);
        let latitude = Latitude::decode(i32_from_le_bytes(vstd::slice::slice_subrange(value, 4, 8)));
        let longitude = Longitude::decode(
            i32_from_le_bytes(vstd::slice::slice_subrange(value, 8, 12)),
        );
        let pressure_altitude = Altitude::decode(
            u16_from_le_bytes(vstd::slice::slice_subrange(value, 12, 14)),
        );
        let geodetic_altitude = Altitude::decode(
            u16_from_le_bytes(vstd::slice::slice_subrange(value, 14, 16)),
        );
        let height = Altitude::decode(u16_from_le_bytes(vstd::slice::slice_subrange(value, 16, 18)));
        let vertical_accuracy = VerticalAccuracy::decode(value[18] / 16);
        let horizontal_accuracy = HorizontalAccuracy::decode(value[18] % 16);
        let altitude_accuracy = VerticalAccuracy::decode(value[19] / 16);
        let speed_accuracy = SpeedAccuracy::decode(value[19] % 16);
        let timestamp = Timestamp::decode(
            u16_from_le_bytes(vstd::slice::slice_subrange(value, 20, 22)),
        );
        let timestamp_accuracy = TimestampAccuracy::decode(value[22] % 16);
        Ok(
            Location {
                operational_status,
                height_type,
                track_direction,
                speed,
                vertical_speed,
                latitude,
                longitude,
                pressure_altitude,
                geodetic_altitude,
                height,
                vertical_accuracy,
                horizontal_accuracy,
                altitude_accuracy,
                speed_accuracy,
                timestamp,
                timestamp_accuracy,
            },
        )
    }
}

impl TrySerialize for Location {
    /// The wire width: 24 bytes.
    open spec fn spec_len(&self) -> nat {
        24
    }

    /// Serialization packs the status, height-type, east/west, and
    /// precision bits into the first byte and writes every field at its
    /// fixed offset; the last byte keeps its previous contents.
    open spec fn spec_serialized(&self, prev_bytes: Seq<u8>, next_bytes: Seq<u8>) -> bool {
        &&& next_bytes.len() == 24
        &&& next_bytes[0] == self.operational_status.spec_encode() * 16
            + self.height_type.spec_encode() * 4 + (if self.track_direction.spec_encode().0 {
            2u8
        } else {
            0u8
        }) + (if self.speed.spec_encode().0 {
            1u8
        } else {
            0u8
        })
        &&& next_bytes[1] == self.track_direction.spec_encode().1
        &&& next_bytes[2] == self.speed.spec_encode().1
        &&& next_bytes[3] == self.vertical_speed.spec_encode()
        &&& next_bytes.subrange(4, 8) == spec_i32_to_le_bytes(self.latitude.spec_encode())
        &&& next_bytes.subrange(8, 12) == spec_i32_to_le_bytes(self.longitude.spec_encode())
        &&& next_bytes.subrange(12, 14) == spec_u16_to_le_bytes(
            self.pressure_altitude.spec_encode(),
        )
        &&& next_bytes.subrange(14, 16) == spec_u16_to_le_bytes(
            self.geodetic_altitude.spec_encode(),
        )
        &&& next_bytes.subrange(16, 18) == spec_u16_to_le_bytes(self.height.spec_encode())
        &&& next_bytes[18] == self.vertical_accuracy.spec_encode() * 16
            + self.horizontal_accuracy.spec_encode()
        &&& next_bytes[19] == self.altitude_accuracy.spec_encode() * 16
            + self.speed_accuracy.spec_encode()
        &&& next_bytes.subrange(20, 22) == spec_u16_to_le_bytes(self.timestamp.spec_encode())
        &&& next_bytes[22] == self.timestamp_accuracy.spec_encode()
        &&& next_bytes[23] == prev_bytes[23]
    }

    fn try_serialize(&self, buffer: &mut Vec<u8>) -> (r: Result<(), Error>) {
        if buffer.len() != 24 {
            return Err(Error::InvalidDataLength);
        }
        let (east_west_bit, angle) = self.track_direction.encode();
        let (speed_low_precision, speed_byte) = self.speed.encode();
        let flags: u8 = self.height_type.encode() * 4 + (if east_west_bit {
            2
        } else {
            0
        }) + (if speed_low_precision {
            1
        } else {
            0
        });
        buffer.set(0, self.operational_status.encode() * 16 + flags);
        buffer.set(1, angle);
        buffer.set(2, speed_byte);
        buffer.set(3, self.vertical_speed.encode());
        write_bytes(buffer, 4, i32_to_le_bytes(self.latitude.encode()).as_slice());
        write_bytes(buffer, 8, i32_to_le_bytes(self.longitude.encode()).as_slice());
        write_bytes(buffer, 12, u16_to_le_bytes(self.pressure_altitude.encode()).as_slice());
        write_bytes(buffer, 14, u16_to_le_bytes(self.geodetic_altitude.encode()).as_slice());
        write_bytes(buffer, 16, u16_to_le_bytes(self.height.encode()).as_slice());
        buffer.set(18, self.vertical_accuracy.encode() * 16 + self.horizontal_accuracy.encode());
        buffer.set(19, self.altitude_accuracy.encode() * 16 + self.speed_accuracy.encode());
        write_bytes(buffer, 20, u16_to_le_bytes(self.timestamp.encode()).as_slice());
        buffer.set(22, self.timestamp_accuracy.encode());
        proof {
            assert(buffer@.subrange(4, 8) =~= spec_i32_to_le_bytes(self.latitude.spec_encode()));
            assert(buffer@.subrange(8, 12) =~= spec_i32_to_le_bytes(self.longitude.spec_encode()));
            assert(buffer@.subrange(12, 14) =~= spec_u16_to_le_bytes(
                self.pressure_altitude.spec_encode(),
            ));
            assert(buffer@.subrange(14, 16) =~= spec_u16_to_le_bytes(
                self.geodetic_altitude.spec_encode(),
            ));
            assert(buffer@.subrange(16, 18) =~= spec_u16_to_le_bytes(self.height.spec_encode()));
            assert(buffer@.subrange(20, 22) =~= spec_u16_to_le_bytes(self.timestamp.spec_encode()));
        }
        Ok(())
    }
}

} // verus!
