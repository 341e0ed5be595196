//! The identity circuit: the arithmetic relation the proof is about.

use vstd::prelude::*;

use crate::backend::{FieldElement, HashParameters};

verus! {

/// The relation `Poseidon(kai_signature) == expected_user_phikey`.
///
/// `kai_signature` is allocated as a private witness, `expected_user_phikey`
/// as the public input a verifier must supply, and `poseidon_config` as a
/// constant baked into the constraint system.  The hash takes exactly one
/// field element; a circuit of any other arity is a different shape and
/// needs a proving key from a different setup.
///
/// A value of this type is consumed once by the proving backend at the
/// boundary layer and owns no long-lived resources.
pub struct PhiIdentityCircuit {
    /// The secret signature: the private witness.
    pub kai_signature: FieldElement,
    /// The public commitment the hash of the signature must equal.
    pub expected_user_phikey: FieldElement,
    /// The fixed hash configuration, identical for every proof of this shape.
    pub poseidon_config: HashParameters,
}

} // verus!
