//! Conversions between the sync protocol's wire messages and typed domain values.
pub mod felt;
pub mod error;
pub mod protobuf;
pub mod types;
pub mod conversion;
pub mod laws;
