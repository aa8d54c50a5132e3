[package]
name = "pq_channel"
version = "0.1.0"
edition = "2021"
publish = false

[dependencies]
ark-bn254 = "0.4"
ark-groth16 = "0.4"
ark-poly-commit = "0.4"
ark-relations = "0.4"
ark-snark = "0.4"
bincode = "=1.3.3"
bulletproofs = "5.0"
curve25519-dalek = { version = "4.1", features = ["rand_core"] }
halo2_proofs = "0.3"
merlin = "3"
rand = "0.8"
