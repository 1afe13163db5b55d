[package]
name = "nucleus_dashboard_api"
version = "0.1.0"
edition = "2021"
publish = false

[dependencies]
anyhow = "1"
axum = "0.8"
chrono = { version = "0.4", default-features = false, features = ["clock", "serde"] }
dotenvy = "0.15"
hex = "=0.4.3"
jsonrpsee = { version = "0.26", features = ["http-client", "ws-client"] }
serde = { version = "1", features = ["derive"] }
serde_json = "1"
sp-core = { version = "=43.0.0", default-features = false, features = ["serde"] }
tokio = { version = "1", features = ["macros", "rt-multi-thread", "net"] }
tower-http = { version = "0.6", features = ["cors", "trace"] }
tracing = "0.1"
tracing-subscriber = { version = "0.3", default-features = false, features = ["fmt", "std"] }
