[package]
name = "hoyo_auth"
version = "0.1.0"
edition = "2021"
publish = false

[dependencies]
base64 = "0.22"
chrono = "0.4"
md5 = "0.7"
rand = "0.8"
rsa = "0.9"
serde_json = "1"
serde = { version = "1", features = ["derive"] }
reqwest = { version = "0.12", default-features = false, features = ["cookies", "json"] }
reqwest_cookie_store = "0.8"
thiserror = "1"
zeroize = "1"
maybe-async = "0.2"
