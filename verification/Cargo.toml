[package]
name = "real_estate_server"
version = "0.1.0"
edition = "2021"
publish = false

[dependencies]
axum = "0.7"
postgres = "0.19"
postgres-types = "0.2"
serde = { version = "1", features = ["derive"] }
tokio = { version = "1", features = ["macros", "net", "rt-multi-thread"] }
