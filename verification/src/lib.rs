//! Deterministic conformance test vectors for pairing-friendly elliptic-curve
//! precompiles.
//!
//! The crate serializes field elements, curve points and scalars into the
//! fixed-width, zero-padded big-endian layouts that two precompile calldata
//! conventions prescribe, and generates positive vectors (valid operations
//! with their expected outputs) as well as negative vectors (deliberately
//! malformed inputs tagged with the validation failure they must trigger).
//! The underlying finite-field and curve-group arithmetic is supplied by an
//! external library and is consumed here only through narrow trusted
//! wrappers; everything byte-level is specified and verified.

pub mod codec;
pub mod profile;
pub mod records;
pub mod rng;
pub mod bls12377;
pub mod bw6761;
