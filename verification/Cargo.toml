[package]
name = "wallet"
version = "0.1.0"
edition = "2021"
publish = false

[dependencies]
candid = "*"
indexmap = "*"
serde = { version = "1", features = ["derive"] }
serde_bytes = "*"
serde_cbor = "*"
sha2 = "*"
base64 = "*"
regex = "*"
lazy_static = "*"
ic-cdk = "*"
ic-cdk-macros = "*"
ic-certified-map = "*"
anyhow = "1"
structopt = "0.3"
async-std = { version = "1", features = ["attributes"] }
delay = "*"
ic-agent = "*"
ic-utils = "*"
ic-identity-hsm = "*"
ring = "*"
