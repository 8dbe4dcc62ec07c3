//! System message: operating area and operator information.
//!
//! A system message carries the operator's location (take-off point, or a
//! fixed or dynamic position) with its source type, the operating area's
//! aircraft count, radius, ceiling, and floor, the classification of the
//! aircraft, the operator's altitude, and a timestamp.  The altitudes of
//! the operator and of the area's ceiling and floor are geodetic: heights
//! above the WGS-84 ellipsoid.

mod area_count;
mod classification_type;
mod operating_area_radius;
mod operator_location_source_type;
mod timestamp;
mod ua_classification;

pub use area_count::AreaCount;
pub use classification_type::ClassificationType;
pub use operating_area_radius::OperatingAreaRadius;
pub use operator_location_source_type::OperatorLocationSourceType;
pub use timestamp::Timestamp;
pub use ua_classification::OpenClassification;
pub use ua_classification::UAClassification;

use vstd::prelude::*;

verus! {

use crate::error::Error;
use crate::location::Altitude;
use crate::location::Latitude;
use crate::location::Longitude;
use crate::try_serialize::i32_from_le_bytes;
use crate::try_serialize::i32_to_le_bytes;
use crate::try_serialize::spec_i32_from_le_bytes;
use crate::try_serialize::spec_i32_to_le_bytes;
use crate::try_serialize::write_bytes;
use crate::try_serialize::TrySerialize;
use vstd::bytes::spec_u16_from_le_bytes;
use vstd::bytes::spec_u16_to_le_bytes;
use vstd::bytes::spec_u32_from_le_bytes;
use vstd::bytes::spec_u32_to_le_bytes;
use vstd::bytes::u16_from_le_bytes;
use vstd::bytes::u16_to_le_bytes;
use vstd::bytes::u32_from_le_bytes;
use vstd::bytes::u32_to_le_bytes;

/// System message: operator location, aircraft classification, operating
/// area parameters, and a timestamp.
///
/// The wire format is 24 bytes.  The first byte packs the classification
/// type (bits 3-2) and the operator-location source type (bits 1-0); the
/// last byte is untouched padding.
#[derive(Clone, Copy, PartialEq, Eq, Debug)]
pub struct System {
    /// Classification scheme in force.
    pub classification_type: ClassificationType,
    /// Source of the operator's location.
    pub operator_location_source_type: OperatorLocationSourceType,
    /// Latitude of the operator.
    pub operator_latitude: Latitude,
    /// Longitude of the operator.
    pub operator_longitude: Longitude,
    /// Number of aircraft in the operating area.
    pub area_count: AreaCount,
    /// Radius of the operating area.
    pub area_radius: OperatingAreaRadius,
    /// Ceiling altitude of the operating area.
    pub area_ceiling: Altitude,
    /// Floor altitude of the operating area.
    pub area_floor: Altitude,
    /// Classification of the aircraft.
    pub ua_classification: UAClassification,
    /// Altitude of the operator.
    pub operator_altitude: Altitude,
    /// Timestamp of the message.
    pub timestamp: Timestamp,
}

impl System {
    /// Constructs a system message.
    pub fn new(
        classification_type: ClassificationType,
        operator_location_source_type: OperatorLocationSourceType,
        operator_latitude: Latitude,
        operator_longitude: Longitude,
        area_count: AreaCount,
        area_radius: OperatingAreaRadius,
        area_ceiling: Altitude,
        area_floor: Altitude,
        ua_classification: UAClassification,
        operator_altitude: Altitude,
        timestamp: Timestamp,
    ) -> (r: System)
        ensures
            r == (System {
                classification_type,
                operator_location_source_type,
                operator_latitude,
                operator_longitude,
                area_count,
                area_radius,
                area_ceiling,
                area_floor,
                ua_classification,
                operator_altitude,
                timestamp,
            }),
    {
        System {
            classification_type,
            operator_location_source_type,
            operator_latitude,
            operator_longitude,
            area_count,
            area_radius,
            area_ceiling,
            area_floor,
            ua_classification,
            operator_altitude,
            timestamp,
        }
    }

    /// Returns the classification scheme in force.
    pub fn classification_type(&self) -> (r: ClassificationType)
        ensures
            r == self.classification_type,
    {
        self.classification_type
    }

    /// Returns the source of the operator's location.
    pub fn operator_location_source_type(&self) -> (r: OperatorLocationSourceType)
        ensures
            r == self.operator_location_source_type,
    {
        self.operator_location_source_type
    }

    /// Returns the operator's latitude.
    pub fn operator_latitude(&self) -> (r: Latitude)
        ensures
            r == self.operator_latitude,
    {
        self.operator_latitude
    }

    /// Returns the operator's longitude.
    pub fn operator_longitude(&self) -> (r: Longitude)
        ensures
            r == self.operator_longitude,
    {
        self.operator_longitude
    }

    /// Returns the number of aircraft in the operating area.
    pub fn area_count(&self) -> (r: AreaCount)
        ensures
            r == self.area_count,
    {
        self.area_count
    }

    /// Returns the radius of the operating area.
    pub fn area_radius(&self) -> (r: OperatingAreaRadius)
        ensures
            r == self.area_radius,
    {
        self.area_radius
    }

    /// Returns the ceiling altitude of the operating area.
    pub fn area_ceiling(&self) -> (r: Altitude)
        ensures
            r == self.area_ceiling,
    {
        self.area_ceiling
    }

    /// Returns the floor altitude of the operating area.
    pub fn area_floor(&self) -> (r: Altitude)
        ensures
            r == self.area_floor,
    {
        self.area_floor
    }

    /// Returns the classification of the aircraft.
    pub fn ua_classification(&self) -> (r: UAClassification)
        ensures
            r == self.ua_classification,
    {
        self.ua_classification
    }

    /// Returns the operator's altitude.
    pub fn operator_altitude(&self) -> (r: Altitude)
        ensures
            r == self.operator_altitude,
    {
        self.operator_altitude
    }

    /// Returns the timestamp.
    pub fn timestamp(&self) -> (r: Timestamp)
        ensures
            r == self.timestamp,
    {
        self.timestamp
    }

    /// The exact decoding relation of [`System::try_from_bytes`]: `r` is
    /// the result that decoding the bytes `value` yields.
    pub open spec fn spec_decode_rel(value: Seq<u8>, r: Result<System, Error>) -> bool {
        if value.len() != 24 {
            r == Err::<System, Error>(Error::InvalidDataLength)
        } else {
            match OperatorLocationSourceType::spec_decode(value[0] % 4) {
                Err(e) => r == Err::<System, Error>(e),
                Ok(ols) => {
                    if spec_u16_from_le_bytes(value.subrange(9, 11)) > 65_000 {
                        r == Err::<System, Error>(Error::InvalidInteger)
                    } else {
                        r matches Ok(s) && {
                            &&& ClassificationType::spec_decode((value[0] / 4) % 4) == Ok::<
                                ClassificationType,
                                Error,
                            >(s.classification_type)
                            &&& s.operator_location_source_type == ols
                            &&& s.operator_latitude == Latitude::spec_decode(
                                spec_i32_from_le_bytes(value.subrange(1, 5)),
                            )
                            &&& s.operator_longitude == Longitude::spec_decode(
                                spec_i32_from_le_bytes(value.subrange(5, 9)),
                            )
                            &&& s.area_count.spec_count() == spec_u16_from_le_bytes(
                                value.subrange(9, 11),
                            )
                            &&& s.area_radius.spec_radius() == value[11] * 10
                            &&& s.area_ceiling == Altitude::spec_decode(
                                spec_u16_from_le_bytes(value.subrange(12, 14)),
                            )
                            &&& s.area_floor == Altitude::spec_decode(
                                spec_u16_from_le_bytes(value.subrange(14, 16)),
                            )
                            &&& s.ua_classification == UAClassification::spec_decode(value[16])
                            &&& s.operator_altitude == Altitude::spec_decode(
                                spec_u16_from_le_bytes(value.subrange(17, 19)),
                            )
                            &&& s.timestamp.spec_system_time() == spec_u32_from_le_bytes(
                                value.subrange(19, 23),
                            )
                        }
                    }
                },
            }
        }
    }

    /// Decodes a system message from a byte slice, which must be exactly
    /// 24 bytes long.  An operator-location source code of 3 and an area
    /// count above its maximum are rejected with
    /// [`Error::InvalidInteger`].
    pub fn try_from_bytes(value: &[u8]) -> (r: Result<System, Error>)
        ensures
            System::spec_decode_rel(value@, r),
    {
        if value.len() != 24 {
            return Err(Error::InvalidDataLength);
        }
        let classification_type = match ClassificationType::decode((value[0] / 4) % 4) {
            Ok(c) => c,
            Err(e) => { return Err(e) },
        };
        let operator_location_source_type = match OperatorLocationSourceType::decode(value[0] % 4) {
            Ok(o) => o,
            Err(e) => { return Err(e) },
        };
        let operator_latitude = Latitude::decode(
            i32_from_le_bytes(vstd::slice::slice_subrange(value, 1, 5)),
        );
        let operator_longitude = Longitude::decode(
            i32_from_le_bytes(vstd::slice::slice_subrange(value, 5, 9)),
        );
        let area_count = match AreaCount::try_new(
            u16_from_le_bytes(vstd::slice::slice_subrange(value, 9, 11)),
        ) {
            Ok(c) => c,
            Err(e) => { return Err(e) },
        };
        let area_radius = OperatingAreaRadius::decode(value[11]);
        let area_ceiling = Altitude::decode(
            u16_from_le_bytes(vstd::slice::slice_subrange(value, 12, 14)),
        );
        let area_floor = Altitude::decode(
            u16_from_le_bytes(vstd::slice::slice_subrange(value, 14, 16)),
        );
        let ua_classification = UAClassification::decode(value[16]);
        let operator_altitude = Altitude::decode(
            u16_from_le_bytes(vstd::slice::slice_subrange(value, 17, 19)),
        );
        let timestamp = Timestamp::decode(
            u32_from_le_bytes(vstd::slice::slice_subrange(value, 19, 23)),
        );
        Ok(
            System {
                classification_type,
                operator_location_source_type,
                operator_latitude,
                operator_longitude,
                area_count,
                area_radius,
                area_ceiling,
                area_floor,
                ua_classification,
                operator_altitude,
                timestamp,
            },
        )
    }
}

impl TrySerialize for System {
    /// The wire width: 24 bytes.
    open spec fn spec_len(&self) -> nat {
        24
    }

    /// Serialization packs the classification and location-source types
    /// into the first byte and writes every field at its fixed offset; the
    /// last byte keeps its previous contents.
    open spec fn spec_serialized(&self, prev_bytes: Seq<u8>, next_bytes: Seq<u8>) -> bool {
        &&& next_bytes.len() == 24
        &&& next_bytes[0] == self.classification_type.spec_encode() * 4
            + self.operator_location_source_type.spec_encode()
        &&& next_bytes.subrange(1, 5) == spec_i32_to_le_bytes(self.operator_latitude.spec_encode())
        &&& next_bytes.subrange(5, 9) == spec_i32_to_le_bytes(self.operator_longitude.spec_encode())
        &&& next_bytes.subrange(9, 11) == spec_u16_to_le_bytes(self.area_count.spec_count())
        &&& next_bytes[11] == self.area_radius.spec_radius() / 10
        &&& next_bytes.subrange(12, 14) == spec_u16_to_le_bytes(self.area_ceiling.spec_encode())
        &&& next_bytes.subrange(14, 16) == spec_u16_to_le_bytes(self.area_floor.spec_encode())
        &&& next_bytes[16] == self.ua_classification.spec_encode()
        &&& next_bytes.subrange(17, 19) == spec_u16_to_le_bytes(
            self.operator_altitude.spec_encode(),
        )
        &&& next_bytes.subrange(19, 23) == spec_u32_to_le_bytes(self.timestamp.spec_system_time())
        &&& next_bytes[23] == prev_bytes[23]
    }

    fn try_serialize(&self, buffer: &mut Vec<u8>) -> (r: Result<(), Error>) {
        if buffer.len() != 24 {
            return Err(Error::InvalidDataLength);
        }
        buffer.set(
            0,
            self.classification_type.encode() * 4 + self.operator_location_source_type.encode(),
        );
        write_bytes(buffer, 1, i32_to_le_bytes(self.operator_latitude.encode()).as_slice());
        write_bytes(buffer, 5, i32_to_le_bytes(self.operator_longitude.encode()).as_slice());
        write_bytes(buffer, 9, u16_to_le_bytes(self.area_count.encode()).as_slice());
        buffer.set(11, self.area_radius.encode());
        write_bytes(buffer, 12, u16_to_le_bytes(self.area_ceiling.encode()).as_slice());
        write_bytes(buffer, 14, u16_to_le_bytes(self.area_floor.encode()).as_slice());
        buffer.set(16, self.ua_classification.encode());
        write_bytes(buffer, 17, u16_to_le_bytes(self.operator_altitude.encode()).as_slice());
        write_bytes(buffer, 19, u32_to_le_bytes(self.timestamp.encode()).as_slice());
        proof {
            assert(buffer@.subrange(1, 5) =~= spec_i32_to_le_bytes(
                self.operator_latitude.spec_encode(),
            ));
            assert(buffer@.subrange(5, 9) =~= spec_i32_to_le_bytes(
                self.operator_longitude.spec_encode(),
            ));
            assert(buffer@.subrange(9, 11) =~= spec_u16_to_le_bytes(self.area_count.spec_count()));
            assert(buffer@.subrange(12, 14) =~= spec_u16_to_le_bytes(
                self.area_ceiling.spec_encode(),
            ));
            assert(buffer@.subrange(14, 16) =~= spec_u16_to_le_bytes(
                self.area_floor.spec_encode(),
            ));
            assert(buffer@.subrange(17, 19) =~= spec_u16_to_le_bytes(
                self.operator_altitude.spec_encode(),
            ));
            assert(buffer@.subrange(19, 23) =~= spec_u32_to_le_bytes(
                self.timestamp.spec_system_time(),
            ));
        }
        Ok(())
    }
}

} // verus!
