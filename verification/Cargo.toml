[package]
name = "tss_core"
version = "0.1.0"
edition = "2021"
publish = false

[dependencies]
hex = "0.4"
libsecp256k1 = "0.7"
aes-gcm = "0.10"
sha3 = "0.10"
uuid = { version = "1", features = ["v4"] }
serde = { version = "1", features = ["derive"] }
serde_json = "1"
reqwest = { version = "0.11", default-features = false, features = ["json"] }
tokio = { version = "1", features = ["rt", "macros"] }
