[package]
name = "postgres_oidc_proxy"
version = "0.1.0"
edition = "2021"
publish = false

[dependencies]
jsonwebtoken = { version = "=11.1.0", features = ["rust_crypto"] }
serde_json = "=1.0.151"
serde = { version = "=1.0.229", features = ["derive"] }
axum = "=0.8.9"
tokio = { version = "=1.53.2", features = ["full"] }
tokio-postgres = "=0.7.18"
tower-http = { version = "=0.7.1", features = ["cors"] }
reqwest = { version = "=0.12.28", default-features = false, features = ["json", "rustls-tls"] }
anyhow = "=1.0.104"
dotenvy = "=0.15.7"
tracing = "=0.1.44"
tracing-subscriber = "=0.3.23"
