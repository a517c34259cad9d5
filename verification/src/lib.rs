//! Decoding of iBeacon advertisements and per-session deduplication of the
//! beacons that a Bluetooth Low Energy scan reports.

pub mod decimal;
pub mod decoder;
pub mod model;
pub mod peripheral;
pub mod registry;
pub mod session;
pub mod uuid_text;
