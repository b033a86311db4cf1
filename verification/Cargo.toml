[package]
name = "voter_auth"
version = "0.1.0"
edition = "2021"
publish = false

[dependencies]
rust-argon2 = "=3.0.0"
bcrypt = "=0.19.3"
rand = "=0.8.8"
chrono = "=0.4.45"
jwt-simple = { version = "=0.15.0", default-features = false, features = ["pure-rust"] }
serde = { version = "=1.0.229", features = ["derive"] }
serde_json = "=1.0.151"
mongodb = { version = "=3.9.1", features = ["sync"] }
redis = "=1.7.1"
