[package]
name = "authcore"
version = "0.1.0"
edition = "2021"
publish = false

[dependencies]
argon2 = "=0.5.3"
password-hash = { version = "=0.5.0", features = ["getrandom"] }
jsonwebtoken = "=9.3.1"
chrono = "=0.4.45"
serde_json = "=1.0.151"
validator = "=0.21.0"
serde = { version = "=1.0.229", features = ["derive"] }
axum = "=0.8.9"
tokio = { version = "=1.53.2", features = ["macros", "rt-multi-thread", "net"] }
sqlx = { version = "=0.9.0", features = ["postgres", "runtime-tokio"] }
dotenv = "=0.15.0"
tracing = "=0.1.44"
tracing-subscriber = "=0.3.23"
