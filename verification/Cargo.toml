[package]
name = "docstore"
version = "0.1.0"
edition = "2021"
publish = false

[dependencies]
serde_json = "1"
tide = { version = "0.16", default-features = false, features = ["h1-server"] }
async-std = { version = "1", features = ["attributes"] }
