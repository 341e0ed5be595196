//! Zero-knowledge identity proofs: a Groth16 pipeline over BLS12-381 that
//! proves knowledge of a secret signature whose Poseidon hash equals a public
//! commitment, without revealing the signature.
//!
//! The verified core decodes caller-supplied bytes into field elements and key
//! structures, validates canonical field encodings, assembles the circuit
//! inputs, and encodes the resulting proof for transport.  The elliptic-curve
//! and constraint-system backends are external collaborators reached through
//! trusted wrappers.

pub mod backend;
pub mod codec;
pub mod errors;
pub mod circuit;
pub mod params;
pub mod pipeline;
