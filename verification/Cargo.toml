[package]
name = "animus-transport-graphql"
version = "0.1.0"
edition = "2021"
publish = false

[dependencies]
chrono = "*"
serde = { version = "*", features = ["derive"] }
serde_json = "*"
anyhow = "*"
async-graphql = "*"
async-graphql-axum = "*"
axum = "*"
tokio = { version = "*", features = ["full"] }
tokio-stream = "*"
futures-util = "*"
async-trait = "*"
tracing = "*"
tracing-subscriber = { version = "*", features = ["env-filter"] }
