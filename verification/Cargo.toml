[package]
name = "kalqix_signature"
version = "0.1.0"
edition = "2021"
publish = false

[dependencies]
hex = "=0.4.3"
sha2 = "=0.10.9"
tiny-keccak = { version = "=2.0.2", features = ["keccak"] }
k256 = { version = "=0.13.4", features = ["ecdsa"] }
bincode = "=1.3.3"
jmt = { version = "=0.11.0", features = ["mocks"] }
sp1-primitives = "=6.10.0"
sp1-zkvm = "=6.10.0"
p3-field = "=0.4.3-succinct"
p3-symmetric = "=0.4.3-succinct"
num-bigint = { version = "=0.4.8", features = ["rand"] }
rand = "=0.8.8"
serde = { version = "=1.0.229", features = ["derive"] }
serde_json = "=1.0.154"
borsh = { version = "=1.8.1", features = ["derive"] }
anyhow = "=1.0.104"
axum = "=0.8.9"
tokio = { version = "=1.54.1", features = ["full"] }
tower-http = { version = "=0.6.11", features = ["cors"] }
wasm-bindgen = "=0.2.130"
serde-wasm-bindgen = "=0.6.5"
