[package]
name = "phi_identity"
version = "0.1.0"
edition = "2021"
publish = false

[dependencies]
ark-bls12-381 = "0.4"
ark-crypto-primitives = { version = "0.4", features = ["crh", "r1cs", "sponge"] }
ark-ec = "0.4"
ark-ff = "0.4"
ark-groth16 = "0.4"
ark-r1cs-std = "0.4"
ark-relations = "0.4"
ark-serialize = "0.4"
ark-std = "0.4"
base64 = "0.13"
hex = "0.4"
rand = "0.8"
