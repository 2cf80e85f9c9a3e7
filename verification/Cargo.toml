[package]
name = "framed_codecs"
version = "0.1.0"
edition = "2021"
publish = false

[dependencies]
bincode = "1"
bytes = "*"
chacha20poly1305 = "*"
futures-core = "*"
futures-sink = "*"
rand_core = { version = "0.6", features = ["getrandom"] }
rmp-serde = "*"
secrecy = "0.8"
serde = "*"
serde_cbor = "*"
serde_json = "*"
