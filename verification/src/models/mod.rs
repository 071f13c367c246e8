//! The records the library reasons about, one module per kind of record.
pub mod allowance;
pub mod family;
pub mod notification;
pub mod paired_device;
pub mod params;
pub mod profile;
pub mod request;
pub mod transaction;
pub mod wallet;
