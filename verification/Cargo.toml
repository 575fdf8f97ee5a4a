[package]
name = "openstudio"
version = "0.1.0"
edition = "2021"
publish = false

[dependencies]
argon2 = "0.5"
jsonwebtoken = "9"
serde_json = "1"
uuid = { version = "1", features = ["v4", "serde"] }
chrono = "0.4"
rand_core = { version = "0.6", features = ["getrandom"] }
axum = "0.8"
axum-extra = { version = "0.10", features = ["typed-header"] }
headers = "0.4"
serde = { version = "1", features = ["derive"] }
tokio = { version = "1", features = ["rt-multi-thread", "macros", "net"] }
