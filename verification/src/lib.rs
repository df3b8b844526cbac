//! A deterministic, seed-derived signing oracle for custodial deposit
//! processing: it derives per-deposit key pairs from a long-lived 64-byte
//! seed and an ordered commitment of string parameters, verifies that a
//! caller-claimed deposit address matches the address the seed produces for
//! that commitment, and only then builds and signs the release transaction.
//!
//! On the wire, a request is a fixed 13-byte binary header followed by a
//! structured payload: a CBOR array of text strings holding the claimed
//! deposit address and then the commitment parameters. The decoder must hand
//! the pipeline the caller-claimed address, and the fixed header has no field
//! for it, so it travels as the payload's first element.

pub mod commitment;
pub mod crypto;
pub mod data;
pub mod digits;
pub mod error;
pub mod header;
pub mod path;
pub mod pipeline;
