//! Ingestion core for a home weather station's telemetry broadcasts.
//!
//! The station sends one self-describing message per datagram. This library
//! decodes the six known message shapes, normalizes the full observation
//! report into a canonical record, and decides each step of the resilient
//! ingestion loop; a thin unverified shell owns the socket and the storage
//! handle.
pub mod ingest;
pub mod json;
pub mod laws;
pub mod normalize;
pub mod numeric;
pub mod packet;
pub mod units;
pub mod weather;
