[package]
name = "couch_webos"
version = "0.1.0"
edition = "2021"
publish = false

[dependencies]
base64 = "0.22"
rustls = { version = "0.23", default-features = false, features = ["ring", "std", "tls12"] }
serde = { version = "1", features = ["derive"] }
serde_json = "1"
tungstenite = "0.28"
url = "2"
