[package]
name = "service_core"
version = "0.1.0"
edition = "2021"
publish = false

[dependencies]
async-graphql = { version = "*", default-features = false }
axum = { version = "*", default-features = false, features = ["json"] }
base64 = "=0.23.1"
hyper = { version = "*", default-features = false }
jsonwebtoken = { version = "=11.1.0", features = ["rust_crypto"] }
ring = "=0.17.14"
serde = { version = "*", features = ["derive"] }
serde_json = "*"
surrealdb = { version = "=3.3.0", default-features = false }
tracing = "*"
