use ark_bls12_381::{Bls12_381, Fr};
use ark_crypto_primitives::crh::poseidon::constraints::CRHGadget;
use ark_crypto_primitives::crh::poseidon::CRH;
use ark_crypto_primitives::crh::{CRHScheme, CRHSchemeGadget};
use ark_crypto_primitives::sponge::poseidon::{find_poseidon_ark_and_mds, PoseidonConfig};
use ark_groth16::{prepare_verifying_key, Groth16, Proof, ProvingKey};
use ark_r1cs_std::alloc::AllocVar;
use ark_r1cs_std::eq::EqGadget;
use ark_r1cs_std::fields::fp::FpVar;
use ark_relations::r1cs::{
    ConstraintSynthesizer, ConstraintSystem, ConstraintSystemRef, SynthesisError,
};
use ark_serialize::{CanonicalDeserialize, CanonicalSerialize};

use phi_identity::backend::Proof as LibProof;
use phi_identity::pipeline::{
    finish_identity_proof, finish_identity_proof_text, prepare_identity_proof,
    prepare_identity_proof_text, ProveOutcome,
};

/// The order of the BLS12-381 scalar field, little endian.
const MOD_LE: [u8; 32] = [
    0x01, 0x00, 0x00, 0x00, 0xff, 0xff, 0xff, 0xff, 0xfe, 0x5b, 0xfe, 0xff, 0x02, 0xa4, 0xbd,
    0x53, 0x05, 0xd8, 0xa1, 0x09, 0x08, 0xd8, 0x39, 0x33, 0x48, 0x7d, 0x9d, 0x29, 0x53, 0xa7,
    0xed, 0x73,
];

fn test_config() -> PoseidonConfig<Fr> {
    let (ark, mds) = find_poseidon_ark_and_mds::<Fr>(255, 2, 4, 2, 0);
    PoseidonConfig::new(4, 2, 5, mds, ark, 2, 1)
}

/// Serializes a Poseidon configuration in the library's parameter format.
fn params_bytes(cfg: &PoseidonConfig<Fr>) -> Vec<u8> {
    let mut out = Vec::new();
    out.extend_from_slice(&(cfg.full_rounds as u64).to_le_bytes());
    out.extend_from_slice(&(cfg.partial_rounds as u64).to_le_bytes());
    out.extend_from_slice(&cfg.alpha.to_le_bytes());
    out.extend_from_slice(&(cfg.rate as u64).to_le_bytes());
    out.extend_from_slice(&(cfg.capacity as u64).to_le_bytes());
    for row in &cfg.ark {
        for e in row {
            e.serialize_compressed(&mut out).unwrap();
        }
    }
    for row in &cfg.mds {
        for e in row {
            e.serialize_compressed(&mut out).unwrap();
        }
    }
    out
}

fn fr_bytes(x: &Fr) -> Vec<u8> {
    let mut v = Vec::new();
    x.serialize_compressed(&mut v).unwrap();
    v
}

fn hash_one(cfg: &PoseidonConfig<Fr>, x: Fr) -> Fr {
    CRH::<Fr>::evaluate(cfg, [x].as_slice()).unwrap()
}

#[derive(Clone)]
struct NativeCircuit {
    secret: Fr,
    commitment: Fr,
    config: PoseidonConfig<Fr>,
}

impl ConstraintSynthesizer<Fr> for NativeCircuit {
    fn generate_constraints(self, cs: ConstraintSystemRef<Fr>) -> Result<(), SynthesisError> {
        let private_var = FpVar::<Fr>::new_witness(cs.clone(), || Ok(self.secret))?;
        let public_var = FpVar::<Fr>::new_input(cs.clone(), || Ok(self.commitment))?;
        let params_var =
            <CRHGadget<Fr> as CRHSchemeGadget<CRH<Fr>, Fr>>::ParametersVar::new_constant(
                cs,
                &self.config,
            )?;
        let hash_var = CRHGadget::<Fr>::evaluate(&params_var, &[private_var])?;
        hash_var.enforce_equal(&public_var)?;
        Ok(())
    }
}

/// The same relation with hash arity two: a different circuit shape, used
/// only to produce a structurally mismatched proving key.
#[derive(Clone)]
struct ArityTwoCircuit {
    left: Fr,
    right: Fr,
    commitment: Fr,
    config: PoseidonConfig<Fr>,
}

impl ConstraintSynthesizer<Fr> for ArityTwoCircuit {
    fn generate_constraints(self, cs: ConstraintSystemRef<Fr>) -> Result<(), SynthesisError> {
        let left_var = FpVar::<Fr>::new_witness(cs.clone(), || Ok(self.left))?;
        let right_var = FpVar::<Fr>::new_witness(cs.clone(), || Ok(self.right))?;
        let public_var = FpVar::<Fr>::new_input(cs.clone(), || Ok(self.commitment))?;
        let params_var =
            <CRHGadget<Fr> as CRHSchemeGadget<CRH<Fr>, Fr>>::ParametersVar::new_constant(
                cs,
                &self.config,
            )?;
        let hash_var = CRHGadget::<Fr>::evaluate(&params_var, &[left_var, right_var])?;
        hash_var.enforce_equal(&public_var)?;
        Ok(())
    }
}

fn setup_keys(cfg: &PoseidonConfig<Fr>) -> ProvingKey<Bls12_381> {
    let s = Fr::from(7u64);
    let c = NativeCircuit { secret: s, commitment: hash_one(cfg, s), config: cfg.clone() };
    Groth16::<Bls12_381>::generate_random_parameters_with_reduction(c, &mut rand::thread_rng())
        .unwrap()
}

fn pk_bytes(pk: &ProvingKey<Bls12_381>) -> Vec<u8> {
    let mut v = Vec::new();
    pk.serialize_compressed(&mut v).unwrap();
    v
}

#[test]
fn round_trip_proof_verifies() {
    let cfg = test_config();
    let pk = setup_keys(&cfg);
    let secret = Fr::from(7u64);
    let commitment = hash_one(&cfg, secret);

    let req = prepare_identity_proof(
        &fr_bytes(&secret),
        &fr_bytes(&commitment),
        &pk_bytes(&pk),
        &params_bytes(&cfg),
    )
    .unwrap();

    let circuit = NativeCircuit {
        secret: req.circuit.kai_signature.raw,
        commitment: req.circuit.expected_user_phikey.raw,
        config: req.circuit.poseidon_config.raw.clone(),
    };
    let proof = Groth16::<Bls12_381>::create_random_proof_with_reduction(
        circuit,
        &req.proving_key.raw,
        &mut rand::thread_rng(),
    )
    .unwrap();

    let out = finish_identity_proof(ProveOutcome::Done(LibProof { raw: proof.clone() })).unwrap();
    let mut native = Vec::new();
    proof.serialize_compressed(&mut native).unwrap();
    assert_eq!(out, native);

    let pvk = prepare_verifying_key(&pk.vk);
    let decoded = Proof::<Bls12_381>::deserialize_compressed(&out[..]).unwrap();
    assert!(Groth16::<Bls12_381>::verify_proof(&pvk, &decoded, &[commitment]).unwrap());
    let other = hash_one(&cfg, Fr::from(8u64));
    assert!(!Groth16::<Bls12_381>::verify_proof(&pvk, &decoded, &[other]).unwrap());
}

#[test]
fn fresh_randomness_gives_distinct_proofs() {
    let cfg = test_config();
    let pk = setup_keys(&cfg);
    let secret = Fr::from(7u64);
    let commitment = hash_one(&cfg, secret);

    let mut proofs = Vec::new();
    for _ in 0..2 {
        let req = prepare_identity_proof(
            &fr_bytes(&secret),
            &fr_bytes(&commitment),
            &pk_bytes(&pk),
            &params_bytes(&cfg),
        )
        .unwrap();
        let circuit = NativeCircuit {
            secret: req.circuit.kai_signature.raw,
            commitment: req.circuit.expected_user_phikey.raw,
            config: req.circuit.poseidon_config.raw.clone(),
        };
        let proof = Groth16::<Bls12_381>::create_random_proof_with_reduction(
            circuit,
            &req.proving_key.raw,
            &mut rand::thread_rng(),
        )
        .unwrap();
        proofs.push(finish_identity_proof(ProveOutcome::Done(LibProof { raw: proof })).unwrap());
    }
    assert_ne!(proofs[0], proofs[1]);

    let pvk = prepare_verifying_key(&pk.vk);
    for bytes in &proofs {
        let p = Proof::<Bls12_381>::deserialize_compressed(&bytes[..]).unwrap();
        assert!(Groth16::<Bls12_381>::verify_proof(&pvk, &p, &[commitment]).unwrap());
    }
}

#[test]
fn mismatched_commitment_is_unsatisfiable() {
    let cfg = test_config();
    let secret = Fr::from(7u64);
    let wrong = hash_one(&cfg, Fr::from(8u64));

    let cs = ConstraintSystem::<Fr>::new_ref();
    let bad = NativeCircuit { secret, commitment: wrong, config: cfg.clone() };
    bad.generate_constraints(cs.clone()).unwrap();
    assert!(!cs.is_satisfied().unwrap());

    let cs_ok = ConstraintSystem::<Fr>::new_ref();
    let good =
        NativeCircuit { secret, commitment: hash_one(&cfg, secret), config: cfg.clone() };
    good.generate_constraints(cs_ok.clone()).unwrap();
    assert!(cs_ok.is_satisfied().unwrap());
}

#[test]
fn wrong_shape_proving_key_never_convinces() {
    let cfg = test_config();
    let secret = Fr::from(7u64);
    let commitment = hash_one(&cfg, secret);

    let arity_two = ArityTwoCircuit {
        left: secret,
        right: secret,
        commitment: CRH::<Fr>::evaluate(&cfg, [secret, secret].as_slice()).unwrap(),
        config: cfg.clone(),
    };
    let pk2 = Groth16::<Bls12_381>::generate_random_parameters_with_reduction(
        arity_two,
        &mut rand::thread_rng(),
    )
    .unwrap();

    let circuit = NativeCircuit { secret, commitment, config: cfg.clone() };
    let attempt = Groth16::<Bls12_381>::create_random_proof_with_reduction(
        circuit,
        &pk2,
        &mut rand::thread_rng(),
    );
    match attempt {
        Err(_) => {},
        Ok(p) => {
            let pvk = prepare_verifying_key(&pk2.vk);
            assert!(!Groth16::<Bls12_381>::verify_proof(&pvk, &p, &[commitment]).unwrap());
        },
    }
}

#[test]
fn text_mode_round_trip_verifies() {
    let cfg = test_config();
    let pk = setup_keys(&cfg);
    let secret = Fr::from(7u64);
    let commitment = hash_one(&cfg, secret);

    let sig_hex = hex::encode(fr_bytes(&secret));
    let key_b64 = base64::encode(fr_bytes(&commitment));
    let req = prepare_identity_proof_text(
        &sig_hex,
        &key_b64,
        &pk_bytes(&pk),
        &params_bytes(&cfg),
    )
    .unwrap();
    assert_eq!(req.circuit.kai_signature.raw, secret);
    assert_eq!(req.circuit.expected_user_phikey.raw, commitment);

    let circuit = NativeCircuit {
        secret: req.circuit.kai_signature.raw,
        commitment: req.circuit.expected_user_phikey.raw,
        config: req.circuit.poseidon_config.raw.clone(),
    };
    let proof = Groth16::<Bls12_381>::create_random_proof_with_reduction(
        circuit,
        &req.proving_key.raw,
        &mut rand::thread_rng(),
    )
    .unwrap();

    let text = finish_identity_proof_text(ProveOutcome::Done(LibProof { raw: proof.clone() })).unwrap();
    let mut native = Vec::new();
    proof.serialize_compressed(&mut native).unwrap();
    assert_eq!(text, base64::encode(&native));

    let pvk = prepare_verifying_key(&pk.vk);
    let decoded =
        Proof::<Bls12_381>::deserialize_compressed(&base64::decode(&text).unwrap()[..]).unwrap();
    assert!(Groth16::<Bls12_381>::verify_proof(&pvk, &decoded, &[commitment]).unwrap());
}

#[test]
fn congruent_secrets_decode_to_the_same_element() {
    let cfg = test_config();
    let pk = setup_keys(&cfg);
    let pkb = pk_bytes(&pk);
    let prm = params_bytes(&cfg);
    let b64 = base64::encode(fr_bytes(&hash_one(&cfg, Fr::from(1u64))));

    // One byte spelling 1, and 33 bytes spelling the field order plus one:
    // congruent modulo the order, so both name the element 1.
    let mut big = [0u8; 33];
    big[..32].copy_from_slice(&MOD_LE);
    big[0] = 0x02;
    let short_hex = "01";
    let long_hex = hex::encode(big);

    let r1 = prepare_identity_proof_text(short_hex, &b64, &pkb, &prm).unwrap();
    let r2 = prepare_identity_proof_text(&long_hex, &b64, &pkb, &prm).unwrap();
    assert_eq!(r1.circuit.kai_signature.raw, Fr::from(1u64));
    assert_eq!(r2.circuit.kai_signature.raw, Fr::from(1u64));
    assert_eq!(r1.circuit.kai_signature.raw, r2.circuit.kai_signature.raw);
}
