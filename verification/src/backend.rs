//! The cryptographic backend's values and the trusted calls into it.
//!
//! Field elements, proving keys, hash configurations and proofs are opaque
//! values of the pairing backend.  Each is held in a newtype that the
//! verified pipeline carries through without looking inside; the wrappers
//! here make the backend calls and state, over byte sequences, exactly what
//! each call is relied on for.

use vstd::prelude::*;

use crate::codec::{fr_canonical, fr_modulus_le, hex_decoding, is_hex_string, le_value};

verus! {

/// A value in the scalar field of the pairing curve; holds an
/// ark_bls12_381::Fr.  Opaque: the pipeline moves it, never inspects it.
#[verifier::external_body]
pub struct FieldElement {
    /// The backend's element, reached only by trusted wrappers and the
    /// boundary layer.
    pub raw: ark_bls12_381::Fr,
}

/// The fixed configuration of the Poseidon hash (round constants, MDS
/// matrix, rates); holds an ark PoseidonConfig over the scalar field.
#[verifier::external_body]
pub struct HashParameters {
    /// The backend's configuration, reached only by trusted wrappers and the
    /// boundary layer.
    pub raw: ark_crypto_primitives::sponge::poseidon::PoseidonConfig<ark_bls12_381::Fr>,
}

/// Key material bound to one circuit shape, produced by an out-of-scope
/// setup ceremony; holds an ark_groth16::ProvingKey for the curve.
#[verifier::external_body]
pub struct ProvingKey {
    /// The backend's key, reached only by trusted wrappers and the boundary
    /// layer.
    pub raw: ark_groth16::ProvingKey<ark_bls12_381::Bls12_381>,
}

/// A finished zero-knowledge proof, immutable once produced; holds an
/// ark_groth16::Proof for the curve.
#[verifier::external_body]
pub struct Proof {
    /// The backend's proof, reached only by trusted wrappers and the
    /// boundary layer.
    pub raw: ark_groth16::Proof<ark_bls12_381::Bls12_381>,
}

/// The element a canonical 32-byte encoding denotes: a function of the
/// bytes alone.
pub uninterp spec fn fr_decoding(b: Seq<u8>) -> FieldElement;

/// Relies on ark_serialize::CanonicalDeserialize for the scalar field: 32
/// little-endian bytes whose value lies below the field order always parse
/// into the element they encode.
#[verifier::external_body]
pub(crate) fn fr_deserialize_canonical(b: &[u8]) -> (r: FieldElement)
    requires
        fr_canonical(b@),
    ensures
        r == fr_decoding(b@),
{
    FieldElement {
        raw: <ark_bls12_381::Fr as ark_serialize::CanonicalDeserialize>::deserialize_compressed(b)
            .unwrap(),
    }
}

/// The element a little-endian byte string of any length reduces to,
/// modulo the field order: a function of the bytes alone.
pub uninterp spec fn fr_mod_order_decoding(b: Seq<u8>) -> FieldElement;

/// Relies on ark_ff::PrimeField::from_le_bytes_mod_order: interprets bytes
/// of any length as a little-endian integer and reduces it modulo the field
/// order, so the result depends only on that residue.  Distinct byte
/// strings may map to the same element; congruent ones always do.
#[verifier::external_body]
pub(crate) fn fr_from_le_bytes_mod_order(b: &[u8]) -> (r: FieldElement)
    ensures
        r == fr_mod_order_decoding(b@),
        forall|b2: Seq<u8>|
            le_value(b2) % le_value(fr_modulus_le()) == le_value(b@) % le_value(fr_modulus_le())
                ==> r == #[trigger] fr_mod_order_decoding(b2),
{
    FieldElement { raw: <ark_bls12_381::Fr as ark_ff::PrimeField>::from_le_bytes_mod_order(b) }
}

pub uninterp spec fn proving_key_bytes_valid(b: Seq<u8>) -> bool;

/// The key that valid compressed key bytes denote: a function of the bytes
/// alone.
pub uninterp spec fn pk_decoding(b: Seq<u8>) -> ProvingKey;

/// Relies on ark_serialize::CanonicalDeserialize for ark_groth16::ProvingKey:
/// whether compressed key bytes parse into a key for this curve depends on
/// the bytes alone.
#[verifier::external_body]
pub(crate) fn proving_key_deserialize(b: &[u8]) -> (r: Option<ProvingKey>)
    ensures
        r is Some <==> proving_key_bytes_valid(b@),
        r matches Some(k) ==> k == pk_decoding(b@),
{
    match <ark_groth16::ProvingKey<ark_bls12_381::Bls12_381> as ark_serialize::CanonicalDeserialize>::deserialize_compressed(
        b,
    ) {
        Ok(raw) => Some(ProvingKey { raw }),
        Err(_) => None,
    }
}

/// The compressed serialized form of a proof: a function of the proof
/// alone.
pub uninterp spec fn proof_encoding(p: Proof) -> Seq<u8>;

/// Relies on ark_serialize::CanonicalSerialize for ark_groth16::Proof:
/// compressed serialization of a finished proof into a byte vector.  It
/// cannot fail: the only error paths are writer errors, which a byte vector
/// never produces, and oversized flags, which the proof's point flags never
/// are.
#[verifier::external_body]
pub(crate) fn proof_serialize_compressed(p: &Proof) -> (r: Vec<u8>)
    ensures
        r@ == proof_encoding(*p),
{
    let mut buf: Vec<u8> = Vec::new();
    ark_serialize::CanonicalSerialize::serialize_compressed(&p.raw, &mut buf).unwrap();
    buf
}

/// The rows of a matrix of field elements, as sequences.
pub open spec fn rows_view(m: Seq<Vec<FieldElement>>) -> Seq<Seq<FieldElement>> {
    m.map_values(|row: Vec<FieldElement>| row@)
}

/// The configuration that PoseidonConfig::new bundles from its parts: a
/// function of those parts alone.
pub uninterp spec fn poseidon_config_of(
    full: nat,
    partial: nat,
    alpha: nat,
    mds: Seq<Seq<FieldElement>>,
    ark: Seq<Seq<FieldElement>>,
    rate: nat,
    cap: nat,
) -> HashParameters;

/// Relies on PoseidonConfig::new: bundles already validated hash parameters.
/// Its dimension assertions cannot fire under this requires.
#[verifier::external_body]
pub(crate) fn poseidon_config_new(
    full_rounds: usize,
    partial_rounds: usize,
    alpha: u64,
    mds: Vec<Vec<FieldElement>>,
    ark: Vec<Vec<FieldElement>>,
    rate: usize,
    capacity: usize,
) -> (r: HashParameters)
    requires
        ark@.len() == full_rounds + partial_rounds,
        forall|i: int| 0 <= i < ark@.len() ==> ark@[i]@.len() == rate + capacity,
        mds@.len() == rate + capacity,
        forall|i: int| 0 <= i < mds@.len() ==> mds@[i]@.len() == rate + capacity,
    ensures
        r == poseidon_config_of(
            full_rounds as nat,
            partial_rounds as nat,
            alpha as nat,
            rows_view(mds@),
            rows_view(ark@),
            rate as nat,
            capacity as nat,
        ),
{
    let mds_raw: Vec<Vec<ark_bls12_381::Fr>> =
        mds.into_iter().map(|row| row.into_iter().map(|e| e.raw).collect()).collect();
    let ark_raw: Vec<Vec<ark_bls12_381::Fr>> =
        ark.into_iter().map(|row| row.into_iter().map(|e| e.raw).collect()).collect();
    let raw = ark_crypto_primitives::sponge::poseidon::PoseidonConfig::new(
        full_rounds, partial_rounds, alpha, mds_raw, ark_raw, rate, capacity,
    );
    HashParameters { raw }
}

/// Relies on hex::decode: it accepts exactly the even-length strings of
/// hexadecimal digits (either letter case) and maps each digit pair to one
/// byte, high nibble first.
#[verifier::external_body]
pub(crate) fn hex_decode(s: &str) -> (r: Option<Vec<u8>>)
    ensures
        r is Some <==> is_hex_string(s@),
        r matches Some(v) ==> v@ == hex_decoding(s@),
{
    hex::decode(s).ok()
}

pub uninterp spec fn base64_decoding(s: Seq<char>) -> Option<Seq<u8>>;

/// Relies on base64::decode (the standard alphabet, with padding): whether a
/// string decodes, and to which bytes, depends on the string alone.
#[verifier::external_body]
pub(crate) fn base64_decode(s: &str) -> (r: Option<Vec<u8>>)
    ensures
        r is Some <==> base64_decoding(s@) is Some,
        r matches Some(v) ==> base64_decoding(s@) == Some(v@),
{
    base64::decode(s).ok()
}

pub uninterp spec fn base64_encoding(b: Seq<u8>) -> Seq<char>;

/// Relies on base64::encode (the standard alphabet, with padding): the
/// encoding of a byte string depends on the bytes alone.
#[verifier::external_body]
pub(crate) fn base64_encode(b: &[u8]) -> (r: String)
    ensures
        r@ == base64_encoding(b@),
{
    base64::encode(b)
}

} // verus!
