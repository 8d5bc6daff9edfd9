[package]
name = "keepasshttp"
version = "0.1.0"
edition = "2021"
publish = false

[dependencies]
base64 = "0.13"
rand = "0.8"
aes = "0.8"
cbc = { version = "0.1", features = ["alloc"] }
serde = { version = "1", features = ["derive"] }
serde_json = "1"
hyper = "0.10"
