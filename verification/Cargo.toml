[package]
name = "xiaozhi"
version = "0.1.0"
edition = "2021"
publish = false

[dependencies]
serde = { version = "=1.0.229", features = ["derive"] }
serde_json = "=1.0.154"
sha2 = "=0.10.9"
hex = "=0.4.3"
base64 = "=0.22.1"
rand = "=0.8.8"
uuid = { version = "=1.29.0", features = ["v4"] }
chrono = "=0.4.45"
bcrypt = "=0.15.1"
urlencoding = "=2.1.3"
jsonwebtoken = { version = "10", default-features = false, features = ["rust_crypto"] }
