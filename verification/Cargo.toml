[package]
name = "noches_ui"
version = "0.1.0"
edition = "2021"
publish = false

[dependencies]
base64 = "0.22"
sha2 = "0.10"
chrono = "0.4"
serde_json = "1"
tokio = { version = "1", features = ["sync", "time", "rt", "macros"] }
async-trait = "0.1"
anyhow = "1"

[dev-dependencies]
tempfile = "3"
