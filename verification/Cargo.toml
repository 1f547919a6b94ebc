[package]
name = "alpine"
version = "1.0.0"
edition = "2021"
publish = false

[dependencies]
sha2 = "0.10"
uuid = { version = "1", features = ["v4"] }
serde = { version = "1", features = ["derive"] }
serde_cbor = "0.11"
serde_json = "1"
tokio = { version = "1", features = ["net", "time", "rt", "sync"] }
async-trait = "0.1"
ed25519-dalek = "2"
