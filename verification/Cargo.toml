[package]
name = "dmg"
version = "0.1.0"
edition = "2021"
publish = false

[dependencies]
bit_field = "0.10"
serde = { version = "1", features = ["derive"] }
serde_cbor = "0.11"
cpal = "0.15"
image = { version = "0.24", default-features = false, features = ["png"] }
minifb = "0.25"
