[package]
name = "ethers_confidential"
version = "0.1.0"
edition = "2021"
publish = false

[dependencies]
deoxys = "=0.1.0"
x25519-dalek = { version = "=2.0.1", features = ["static_secrets"] }
hmac = "=0.12.1"
sha2 = "=0.10.9"
rand = "=0.8.8"
ethers-core = { version = "=1.0.2", features = ["eip712"] }
ethers-providers = { version = "=1.0.2", default-features = false }
rusoto_core = { version = "=0.48.0", default-features = false, features = ["rustls"] }
rusoto_kms = { version = "=0.48.0", default-features = false, features = ["rustls"] }
spki = "=0.6.0"
hex = "=0.4.3"
tokio = { version = "=1.54.1", features = ["time"] }
async-trait = "=0.1.92"
thiserror = "=1.0.69"
tracing = "=0.1.44"
eyre = "=0.6.14"
futures-locks = "=0.7.1"
