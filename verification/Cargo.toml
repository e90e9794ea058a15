[package]
name = "halo2_ecc"
version = "0.1.0"
edition = "2021"
publish = false

[dependencies]
ff = "0.13"
halo2_proofs = "0.3"
halo2curves = "*"
num-bigint = "0.4"
serde = { version = "1", features = ["derive"] }
serde_json = "1"
