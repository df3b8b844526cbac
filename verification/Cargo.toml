[package]
name = "deposit_oracle"
version = "0.1.0"
edition = "2021"
publish = false

[dependencies]
alloy = { version = "=2.5.0", default-features = false, features = ["std", "consensus", "network", "signer-local", "k256"] }
bip32 = { version = "=0.6.0", features = ["alloc"] }
k256 = "=0.14.0"
sha2 = "=0.11.0"
sha3 = "=0.12.0"
minicbor = { version = "=2.3.0", features = ["alloc"] }
serde = { version = "*", features = ["derive"] }
serde_json = "*"

[dev-dependencies]
hex = "=0.4.3"
