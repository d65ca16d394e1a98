[package]
name = "registrar_node"
version = "0.1.0"
edition = "2021"
publish = false

[dependencies]
anyhow = "1"
axum = "0.8"
base64 = "=0.22.1"
chrono = { version = "=0.4.45", default-features = false, features = ["clock", "std", "serde"] }
futures = "0.3"
oan-core = "=0.1.0"
oan-crypto = "=0.1.0"
oan-protocol = "=0.1.0"
oan-semantic-recommender = "=0.1.0"
oan-service-security = "=0.1.0"
oan-storage = "=0.1.0"
reqwest = { version = "0.12", default-features = false, features = ["json"] }
serde = { version = "1", features = ["derive"] }
serde_json = "=1.0.154"
sqlx = { version = "0.8", default-features = false, features = ["runtime-tokio", "sqlite", "postgres"] }
tokio = { version = "1", features = ["macros", "rt-multi-thread", "net", "time"] }
toml = "0.8"
tower-http = { version = "0.6", default-features = false, features = ["cors"] }
