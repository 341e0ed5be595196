//! The error taxonomy of the proof pipeline: every stage fails fast and
//! reports which input or step went wrong.

use vstd::prelude::*;

verus! {

/// Which caller-supplied input could not be decoded.
#[derive(Clone, Copy, Debug, PartialEq, Eq, Structural)]
pub enum DecodeField {
    /// The secret signature (the private witness).
    Secret,
    /// The public commitment (the public input).
    Commitment,
    /// The serialized proving key.
    ProvingKey,
    /// The serialized Poseidon hash parameters.
    HashParameters,
}

/// The stages at which proof generation can fail.  The pipeline stops at the
/// first failure; no partial result is ever returned.
#[derive(Clone, Copy, Debug, PartialEq, Eq, Structural)]
pub enum ProofError {
    /// An input could not be parsed into the expected structure.
    Decode(DecodeField),
    /// The circuit could not be built against the constraint system.
    Synthesis,
    /// The proving algorithm failed after synthesis.
    Proving,
    /// The finished proof could not be serialized.
    Encode,
}

} // verus!
