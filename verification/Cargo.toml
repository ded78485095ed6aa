[package]
name = "totp_mfa"
version = "0.1.0"
edition = "2021"
publish = false

[dependencies]
rand = "0.8"
base32 = "0.5"
totp-rs = "5"
uuid = { version = "1", features = ["v4"] }
axum = "0.7"
tokio = { version = "1", features = ["rt-multi-thread", "macros", "net", "sync"] }
serde = { version = "1", features = ["derive"] }
serde_json = "1"
tracing = "0.1"
tracing-subscriber = "0.3"
