[package]
name = "session_gate"
version = "0.1.0"
edition = "2021"
publish = false

[dependencies]
jsonwebtoken = { version = "=11.1.0", features = ["rust_crypto"] }
bcrypt = "=0.19.3"
chrono = "=0.4.45"
serde_json = "=1.0.151"
