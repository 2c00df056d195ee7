[package]
name = "vc_status_list"
version = "0.1.0"
edition = "2021"
publish = false

[dependencies]
base64url = "*"
ciborium = "0.2"
flate2 = "1"
serde = { version = "1", features = ["derive"] }
serde_bytes = "0.11"
serde_json = { version = "1", features = ["preserve_order"] }
