//! Binary codec for the fixed-layout broadcast messages that unmanned
//! aircraft use to transmit identity, location, and operational metadata.
//!
//! Physical quantities (altitudes, speeds, angles) are represented as
//! fixed-point integers in the resolution of the wire format itself, so every
//! conversion in this crate is exact; each module documents its unit.

pub mod authentication;
pub mod basic_id;
pub mod error;
pub mod location;
pub mod messages;
pub mod operator_id;
pub mod pack;
pub mod self_id;
pub mod system;
mod text;
pub mod try_serialize;
