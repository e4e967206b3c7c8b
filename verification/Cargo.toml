[package]
name = "rita_core"
version = "0.1.0"
edition = "2021"
publish = false

[dependencies]
num256 = "*"
ip_network = "*"
serde = { version = "*", features = ["derive"] }
serde_json = "*"
toml = "*"
config = { version = "*", default-features = false, features = ["toml"] }
log = "*"
failure = { version = "*", default-features = false, features = ["std"] }
