[package]
name = "chigua"
version = "0.1.0"
edition = "2021"
publish = false

[dependencies]
actix-web = "4"
axum = "0.8"
base64 = "0.22"
bb8-redis = "*"
config = "*"
moka = { version = "0.12", features = ["future"] }
regex = "1"
reqwest = { version = "0.12", default-features = false, features = ["json", "rustls-tls"] }
scraper = "*"
serde = { version = "1", features = ["derive"] }
serde_json = "1"
tokio = { version = "1", features = ["full"] }
tracing = "0.1"
tracing-subscriber = { version = "0.3", features = ["env-filter"] }
