//! A per-user verification registry.
//!
//! Every principal owns up to seven categorised records (identity, address,
//! device, email, community, trust score and a legacy document slot). Each
//! record is a 32-byte digest, a timestamp and an active flag. The registry
//! also keeps a log of the principals that stored a record while holding no
//! active one, together with a running count of that log.
//!
//! `types` holds the plain data, `model` the mathematical registry that the
//! contracts speak of, `registry` the executable registry, and `laws` the
//! properties that follow from the model.

pub mod types;
pub mod model;
pub mod registry;
pub mod laws;
