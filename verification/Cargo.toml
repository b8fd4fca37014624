[package]
name = "nap"
version = "0.1.0"
edition = "2021"
publish = false

[dependencies]
serde = { version = "1", features = ["derive"] }
serde_json = "1"
thiserror = "1"
once_cell = "1"
cfg-if = "1"
keyring = { version = "2", default-features = false }
dialoguer = "0.10"
surf = "2"
async-std = "1"
futures = "0.3"
nu-plugin = "0.80"
nu-protocol = "0.80"
