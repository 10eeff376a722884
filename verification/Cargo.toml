[package]
name = "rpc_router"
version = "0.1.0"
edition = "2021"
publish = false

[dependencies]
axum = "*"
futures = "0.3"
modql = "*"
serde = { version = "1", features = ["derive"] }
serde_json = "1"
