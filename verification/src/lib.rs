//! A verified location-proof registry.
//!
//! A merchant identifier maps to at most one immutable GPS coordinate record.
//! Creation validates coordinate bounds and identifier length, derives a
//! deterministic storage key, and inserts the record only if the key is free;
//! closure removes the record only for the identity that created it.

pub mod address;
pub mod errors;
pub mod laws;
pub mod machine;
pub mod records;
pub mod store;
pub mod validate;
