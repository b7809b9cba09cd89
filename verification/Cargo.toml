[package]
name = "hmm-rs"
version = "0.1.0"
edition = "2021"
publish = false

[dependencies]
ndarray = { version = "0.16", features = ["serde"] }
rand = "0.9"
rand_distr = "0.5"
serde = { version = "1", features = ["derive"] }
statrs = "0.18"
thiserror = "2"
log = "0.4"

[dev-dependencies]
serde_json = "1"
