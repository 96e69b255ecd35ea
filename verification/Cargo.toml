[package]
name = "auth-service"
version = "0.1.0"
edition = "2021"
publish = false

[dependencies]
argon2 = "=0.5.3"
async-trait = "=0.1.92"
axum = "=0.7.9"
axum-extra = { version = "=0.9.6", features = ["cookie"] }
chrono = "=0.4.45"
color-eyre = "=0.6.5"
dotenvy = "=0.15.7"
jsonwebtoken = "=9.3.1"
lazy_static = "=1.5.1"
rand = "=0.8.8"
redis = "=0.25.5"
secrecy = "=0.8.0"
serde = { version = "=1.0.229", features = ["derive"] }
serde_json = "=1.0.154"
sqlx = { version = "=0.8.6", default-features = false, features = ["runtime-tokio", "postgres", "migrate"] }
thiserror = "=1.0.69"
tokio = { version = "=1.54.1", features = ["full"] }
tower-http = { version = "=0.5.2", features = ["fs", "trace"] }
tracing = "=0.1.44"
tracing-subscriber = "=0.3.23"
uuid = { version = "=1.29.0", features = ["v4"] }
validator = "=0.16.1"
