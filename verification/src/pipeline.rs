//! The proof pipeline: decode the caller's bytes, assemble the circuit,
//! and encode the finished proof.
//!
//! Decoding is fail-fast: the inputs are checked in a fixed order — secret,
//! commitment, proving key, hash parameters — and the first malformed one
//! names the stage in the returned error.  The proving call itself is
//! outside work performed at the boundary layer; its outcome comes back
//! through `finish_identity_proof`, so that everything before and after the
//! backend's randomised algorithm is verified.

use vstd::prelude::*;

use crate::backend::{
    base64_decode, base64_decoding, base64_encode, base64_encoding, fr_decoding,
    fr_deserialize_canonical, fr_from_le_bytes_mod_order, fr_mod_order_decoding, hex_decode,
    pk_decoding, proof_encoding, proof_serialize_compressed, proving_key_bytes_valid,
    proving_key_deserialize, FieldElement, Proof, ProvingKey,
};
use crate::circuit::PhiIdentityCircuit;
use crate::codec::{fr_canonical, hex_decoding, is_canonical_fr_bytes, is_hex_string};
use crate::errors::{DecodeField, ProofError};
use crate::params::{decode_hash_parameters, decoded_params, poseidon_params_wf};

verus! {

/// Everything the proving backend needs for one proof: the instantiated
/// circuit and the key material matching its shape.
pub struct ProofRequest {
    /// The circuit, carrying the decoded witness and public input.
    pub circuit: PhiIdentityCircuit,
    /// The decoded proving key.
    pub proving_key: ProvingKey,
}

/// Decodes the secret signature from its canonical 32-byte encoding.
/// Out-of-range or wrongly sized bytes are rejected, never reduced.
pub fn decode_secret(bytes: &[u8]) -> (r: Result<FieldElement, ProofError>)
    ensures
        r is Ok <==> fr_canonical(bytes@),
        r matches Ok(e) ==> e == fr_decoding(bytes@),
        r is Err ==> r->Err_0 == ProofError::Decode(DecodeField::Secret),
{
    if is_canonical_fr_bytes(bytes) {
        Ok(fr_deserialize_canonical(bytes))
    } else {
        Err(ProofError::Decode(DecodeField::Secret))
    }
}

/// Decodes the public commitment from its canonical 32-byte encoding, with
/// the same range check as the secret.
pub fn decode_commitment(bytes: &[u8]) -> (r: Result<FieldElement, ProofError>)
    ensures
        r is Ok <==> fr_canonical(bytes@),
        r matches Ok(e) ==> e == fr_decoding(bytes@),
        r is Err ==> r->Err_0 == ProofError::Decode(DecodeField::Commitment),
{
    if is_canonical_fr_bytes(bytes) {
        Ok(fr_deserialize_canonical(bytes))
    } else {
        Err(ProofError::Decode(DecodeField::Commitment))
    }
}

/// Decodes the proving key from its compressed serialized form.
pub fn decode_proving_key(bytes: &[u8]) -> (r: Result<ProvingKey, ProofError>)
    ensures
        r is Ok <==> proving_key_bytes_valid(bytes@),
        r matches Ok(k) ==> k == pk_decoding(bytes@),
        r is Err ==> r->Err_0 == ProofError::Decode(DecodeField::ProvingKey),
{
    match proving_key_deserialize(bytes) {
        Some(pk) => Ok(pk),
        None => Err(ProofError::Decode(DecodeField::ProvingKey)),
    }
}

/// The stage at which raw-mode decoding fails first, if any.
pub open spec fn raw_decode_failure(
    sig: Seq<u8>,
    commitment: Seq<u8>,
    pk: Seq<u8>,
    params: Seq<u8>,
) -> Option<ProofError> {
    if !fr_canonical(sig) {
        Some(ProofError::Decode(DecodeField::Secret))
    } else if !fr_canonical(commitment) {
        Some(ProofError::Decode(DecodeField::Commitment))
    } else if !proving_key_bytes_valid(pk) {
        Some(ProofError::Decode(DecodeField::ProvingKey))
    } else if !poseidon_params_wf(params) {
        Some(ProofError::Decode(DecodeField::HashParameters))
    } else {
        None
    }
}

/// Raw mode: decodes the four caller-supplied byte strings — canonical
/// secret and commitment encodings, compressed proving key, hash-parameter
/// block — into a proof request, stopping at the first malformed input.
pub fn prepare_identity_proof(
    kai_sig_bytes: &[u8],
    user_phikey_bytes: &[u8],
    proving_key_bytes: &[u8],
    poseidon_params_bytes: &[u8],
) -> (r: Result<ProofRequest, ProofError>)
    ensures
        r is Ok <==> raw_decode_failure(
            kai_sig_bytes@,
            user_phikey_bytes@,
            proving_key_bytes@,
            poseidon_params_bytes@,
        ) is None,
        r matches Err(e) ==> raw_decode_failure(
            kai_sig_bytes@,
            user_phikey_bytes@,
            proving_key_bytes@,
            poseidon_params_bytes@,
        ) == Some(e),
        r matches Ok(req) ==> {
            &&& req.circuit.kai_signature == fr_decoding(kai_sig_bytes@)
            &&& req.circuit.expected_user_phikey == fr_decoding(user_phikey_bytes@)
            &&& req.circuit.poseidon_config == decoded_params(poseidon_params_bytes@)
            &&& req.proving_key == pk_decoding(proving_key_bytes@)
        },
{
    let kai_signature = match decode_secret(kai_sig_bytes) {
        Ok(v) => v,
        Err(e) => {
            return Err(e);
        },
    };
    let expected_user_phikey = match decode_commitment(user_phikey_bytes) {
        Ok(v) => v,
        Err(e) => {
            return Err(e);
        },
    };
    let proving_key = match decode_proving_key(proving_key_bytes) {
        Ok(v) => v,
        Err(e) => {
            return Err(e);
        },
    };
    let poseidon_config = match decode_hash_parameters(poseidon_params_bytes) {
        Ok(v) => v,
        Err(e) => {
            return Err(e);
        },
    };
    Ok(
        ProofRequest {
            circuit: PhiIdentityCircuit { kai_signature, expected_user_phikey, poseidon_config },
            proving_key,
        },
    )
}

/// The stage at which text-mode decoding fails first, if any.  The secret
/// and commitment are reduced modulo the field order, so only their outer
/// text encodings can reject.
pub open spec fn text_decode_failure(
    sig_hex: Seq<char>,
    commitment_b64: Seq<char>,
    pk: Seq<u8>,
    params: Seq<u8>,
) -> Option<ProofError> {
    if !is_hex_string(sig_hex) {
        Some(ProofError::Decode(DecodeField::Secret))
    } else if base64_decoding(commitment_b64) is None {
        Some(ProofError::Decode(DecodeField::Commitment))
    } else if !proving_key_bytes_valid(pk) {
        Some(ProofError::Decode(DecodeField::ProvingKey))
    } else if !poseidon_params_wf(params) {
        Some(ProofError::Decode(DecodeField::HashParameters))
    } else {
        None
    }
}

/// Text mode: the secret arrives hex-encoded and the commitment
/// base64-encoded; both are interpreted little-endian and reduced modulo the
/// field order, so distinct strings may name the same element.  Key and
/// parameter bytes are decoded as in raw mode.
pub fn prepare_identity_proof_text(
    kai_sig_hex: &str,
    phi_key_b64: &str,
    proving_key_bytes: &[u8],
    poseidon_params_bytes: &[u8],
) -> (r: Result<ProofRequest, ProofError>)
    ensures
        r is Ok <==> text_decode_failure(
            kai_sig_hex@,
            phi_key_b64@,
            proving_key_bytes@,
            poseidon_params_bytes@,
        ) is None,
        r matches Err(e) ==> text_decode_failure(
            kai_sig_hex@,
            phi_key_b64@,
            proving_key_bytes@,
            poseidon_params_bytes@,
        ) == Some(e),
        r matches Ok(req) ==> {
            &&& req.circuit.kai_signature == fr_mod_order_decoding(hex_decoding(kai_sig_hex@))
            &&& (base64_decoding(phi_key_b64@) matches Some(kb)
                && req.circuit.expected_user_phikey == fr_mod_order_decoding(kb))
            &&& req.circuit.poseidon_config == decoded_params(poseidon_params_bytes@)
            &&& req.proving_key == pk_decoding(proving_key_bytes@)
        },
{
    let sig_bytes = match hex_decode(kai_sig_hex) {
        Some(v) => v,
        None => {
            return Err(ProofError::Decode(DecodeField::Secret));
        },
    };
    let key_bytes = match base64_decode(phi_key_b64) {
        Some(v) => v,
        None => {
            return Err(ProofError::Decode(DecodeField::Commitment));
        },
    };
    let kai_signature = fr_from_le_bytes_mod_order(sig_bytes.as_slice());
    let expected_user_phikey = fr_from_le_bytes_mod_order(key_bytes.as_slice());
    let proving_key = match decode_proving_key(proving_key_bytes) {
        Ok(v) => v,
        Err(e) => {
            return Err(e);
        },
    };
    let poseidon_config = match decode_hash_parameters(poseidon_params_bytes) {
        Ok(v) => v,
        Err(_) => {
            return Err(ProofError::Decode(DecodeField::HashParameters));
        },
    };
    Ok(
        ProofRequest {
            circuit: PhiIdentityCircuit { kai_signature, expected_user_phikey, poseidon_config },
            proving_key,
        },
    )
}

/// Serializes a finished proof into its compressed byte form: always the
/// complete serialization, never truncated.  With this backend the step
/// cannot fail, so the encode-stage error is never produced.
pub fn encode_proof(proof: &Proof) -> (r: Result<Vec<u8>, ProofError>)
    ensures
        r matches Ok(v) && v@ == proof_encoding(*proof),
{
    Ok(proof_serialize_compressed(proof))
}

/// Serializes a finished proof and wraps the bytes base64 for transport
/// over text channels.
pub fn encode_proof_text(proof: &Proof) -> (r: Result<String, ProofError>)
    ensures
        r matches Ok(s) && s@ == base64_encoding(proof_encoding(*proof)),
{
    Ok(base64_encode(proof_serialize_compressed(proof).as_slice()))
}

/// The boundary layer's report of one proving attempt.
pub enum ProveOutcome {
    /// The backend returned a proof.
    Done(Proof),
    /// The circuit could not be built against the constraint system.
    SynthesisFailed,
    /// Synthesis went through; the proving algorithm itself failed.
    ProvingFailed,
}

/// Turns the proving backend's outcome into the pipeline's raw-mode result:
/// each backend failure surfaces as the error of its stage, a finished
/// proof is serialized for transport.
pub fn finish_identity_proof(outcome: ProveOutcome) -> (r: Result<Vec<u8>, ProofError>)
    ensures
        outcome is SynthesisFailed <==> r == Err::<Vec<u8>, ProofError>(ProofError::Synthesis),
        outcome is ProvingFailed <==> r == Err::<Vec<u8>, ProofError>(ProofError::Proving),
        outcome matches ProveOutcome::Done(p) ==> (r matches Ok(v) && v@ == proof_encoding(p)),
{
    match outcome {
        ProveOutcome::SynthesisFailed => Err(ProofError::Synthesis),
        ProveOutcome::ProvingFailed => Err(ProofError::Proving),
        ProveOutcome::Done(p) => encode_proof(&p),
    }
}

/// Turns the proving backend's outcome into the pipeline's text-mode result:
/// as `finish_identity_proof`, with the proof bytes base64-wrapped.
pub fn finish_identity_proof_text(outcome: ProveOutcome) -> (r: Result<String, ProofError>)
    ensures
        outcome is SynthesisFailed <==> r == Err::<String, ProofError>(ProofError::Synthesis),
        outcome is ProvingFailed <==> r == Err::<String, ProofError>(ProofError::Proving),
        outcome matches ProveOutcome::Done(p) ==> (r matches Ok(s) && s@ == base64_encoding(proof_encoding(p))),
{
    match outcome {
        ProveOutcome::SynthesisFailed => Err(ProofError::Synthesis),
        ProveOutcome::ProvingFailed => Err(ProofError::Proving),
        ProveOutcome::Done(p) => encode_proof_text(&p),
    }
}

} // verus!
