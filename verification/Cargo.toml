[package]
name = "swissknife"
version = "0.1.0"
edition = "2021"
publish = false

[dependencies]
hex = "0.4"
base64 = "0.22"
bitcoin = "0.32"
lightning-invoice = "*"
chrono = "0.4"
serde = { version = "1", features = ["derive"] }
serde_json = "1"
reqwest = { version = "0.12", default-features = false, features = ["json", "rustls-tls"] }
tokio = { version = "1", features = ["full"] }
anyhow = "1"
async-trait = "0.1"
tracing = "0.1"
tracing-subscriber = { version = "0.3", features = ["env-filter", "json"] }
axum = "*"
uuid = { version = "1", features = ["v4"] }
