[package]
name = "provenance_score"
version = "0.1.0"
edition = "2021"
publish = false

[dependencies]
serde = { version = "=1.0.229", features = ["derive"] }
serde_json = "=1.0.151"
c2pa = { version = "=0.90.22", default-features = false, features = ["rust_native_crypto"] }
c2pa-status-tracker = "=0.7.0"
reqwest = { version = "=0.12.28", default-features = false, features = ["blocking", "multipart"] }
