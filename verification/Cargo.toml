[package]
name = "ark_groth16"
version = "0.1.0"
edition = "2021"
publish = false

[dependencies]
ark-bls12-377 = { version = "0.4", default-features = false, features = ["curve"] }
ark-ec = { version = "0.4", default-features = false }
ark-ff = { version = "0.4", default-features = false }
ark-poly = { version = "0.4", default-features = false }
ark-relations = { version = "0.4", default-features = false }
ark-serialize = { version = "0.4", default-features = false, features = ["derive"] }
ark-std = { version = "0.4", default-features = false }

[dev-dependencies]
ark-r1cs-std = { version = "0.4", default-features = false }
