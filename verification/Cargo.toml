[package]
name = "libproto"
version = "0.1.0"
edition = "2021"
publish = false

[dependencies]
libsecp256k1 = "*"
tiny-keccak = { version = "*", features = ["keccak"] }
rlp = "*"
serde = "*"
serde_derive = "*"
