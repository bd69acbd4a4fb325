[package]
name = "swap"
version = "0.1.0"
edition = "2021"
publish = false

[dependencies]
anyhow = "=1.0.104"
curve25519-dalek = "=4.1.3"
ecdsa_fun = { version = "=0.12.0", features = ["adaptor"] }
futures = "=0.3.34"
libp2p = { version = "=0.57.1", default-features = false, features = ["cbor", "macros", "request-response"] }
rand_chacha = "=0.3.1"
serde = { version = "=1.0.229", features = ["derive"] }
sha2 = "=0.10.9"
tracing = "=0.1.44"
