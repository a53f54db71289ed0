[package]
name = "solisp_tools"
version = "0.1.0"
edition = "2021"
publish = false

[dependencies]
base64 = "*"
bs58 = "*"
csv = "*"
hex = "*"
url = "*"
serde_json = "*"
reqwest = { version = "*", default-features = false, features = ["json"] }
