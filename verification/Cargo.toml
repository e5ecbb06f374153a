[package]
name = "sealed_chat"
version = "0.1.0"
edition = "2021"
publish = false

[dependencies]
aes-gcm = "=0.10.3"
argon2 = "=0.5.3"
base64 = "=0.22.1"
ed25519-dalek = { version = "=2.2.0", features = ["rand_core"] }
x25519-dalek = { version = "=2.0.1", features = ["static_secrets"] }
hkdf = "=0.12.4"
sha2 = "=0.10.9"
rand = "=0.8.8"
serde = { version = "=1.0.229", features = ["derive"] }
serde_json = "=1.0.154"
chrono = "=0.4.45"
anyhow = "=1.0.104"
thiserror = "=2.0.21"
axum = { version = "=0.8.9", features = ["ws"] }
tokio = { version = "=1.54.1", features = ["macros", "rt-multi-thread", "net", "sync"] }
sqlx = { version = "=0.8.6", default-features = false, features = ["runtime-tokio", "sqlite"] }
jsonwebtoken = "=9.3.1"
tower-http = { version = "=0.6.11", features = ["cors", "trace"] }
tracing = "=0.1.44"
tracing-subscriber = { version = "=0.3.23", features = ["env-filter"] }
zeroize = "=1.9.1"
