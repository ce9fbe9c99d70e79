[package]
name = "pqc_chain"
version = "0.1.0"
edition = "2021"
publish = false

[dependencies]
oqs = "*"
serde = { version = "1", features = ["derive"] }
serde_json = "1"
sha2 = "0.10"
thiserror = "1"
