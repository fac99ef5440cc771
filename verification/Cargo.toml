[package]
name = "nostr_connect_session"
version = "0.1.0"
edition = "2021"
publish = false

[dependencies]
nostr-sdk = "=0.45.4"
nostr = { version = "=0.45.5", features = ["nip46"] }
secp256k1 = "=0.30.0"
bitcoin_hashes = "=1.2.0"
tokio = { version = "=1.53.2", features = ["rt", "macros"] }
