[package]
name = "lakekeeper_delta"
version = "0.1.0"
edition = "2021"
publish = false

[dependencies]
async-trait = "0.1"
axum = "0.8"
http = "1"
iceberg = { version = "*", default-features = false }
serde = { version = "1", features = ["derive"] }
serde_json = "1"
