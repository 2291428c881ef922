[package]
name = "coop"
version = "0.1.0"
edition = "2021"
publish = false

[dependencies]
nostr-sdk = { version = "=0.44.1", default-features = false, features = ["nip49"] }
nostr-connect = { version = "0.44", default-features = false }
serde = { version = "=1.0.229", features = ["derive"] }
serde_json = "=1.0.154"
dirs = "=7.0.0"
flume = "=0.12.0"
anyhow = "=1.0.104"
