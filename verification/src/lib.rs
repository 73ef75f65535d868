//! Nimiq core pieces: network identifiers, one-time-pad locking of secrets,
//! and the client builder with its initialisation state machines.

pub mod networks;
pub mod serialization;
pub mod kdf;
pub mod clear;
pub mod random;
pub mod otp;
pub mod client;
