//! A time-locked file vault: files are sealed under a password-wrapped key and
//! released only once a trusted external clock has passed their unlock date.
//!
//! The library holds the vault's rules and formats; reading and writing files,
//! talking to time servers and sleeping between retries are left to the caller,
//! who hands the library plain values and acts on what it returns.

pub mod engine;
pub mod keys;
pub mod model;
pub mod oracle;
pub mod paths;
pub mod primitives;
pub mod records;
