//! A Proof-of-History hash-chain engine and verifier.
//!
//! The crate produces a strictly ordered, cryptographically linked sequence
//! of records by repeatedly re-hashing a running 32-byte state at a fixed
//! cadence, optionally binding externally supplied event bytes into the
//! chain, and verifying recorded sequences after the fact.

pub mod clock;
pub mod hash;
pub mod metronome;
pub mod poh;
pub mod record;
pub mod runtime;
