[package]
name = "pairing_vectors"
version = "0.1.0"
edition = "2021"
publish = false

[dependencies]
ark-bls12-377 = "0.4"
ark-bw6-761 = "0.4"
ark-ec = "0.4"
ark-ff = "0.4"
ark-serialize = "0.4"
ark-std = "0.4"
rand = "0.8"
hex = "0.4"
serde = { version = "1", features = ["derive"] }
serde_json = "1"
