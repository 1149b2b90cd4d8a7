[package]
name = "airlink"
version = "0.1.0"
edition = "2021"
publish = false

[dependencies]
anyhow = "=1.0.104"
axum = { version = "=0.8.9", features = ["multipart", "ws"] }
axum-extra = { version = "=0.10.3", features = ["cookie"] }
axum-server = "=0.8.0"
bcrypt = "=0.17.1"
bytemuck = "=1.25.2"
bytes = "1"
cpal = "=0.15.3"
dashmap = "=6.2.1"
rusqlite = { version = "=0.41.1", features = ["bundled"] }
rustls-acme = { version = "=0.15.4", features = ["axum"] }
serde = { version = "=1.0.229", features = ["derive"] }
serde_json = "=1.0.154"
tokio = { version = "=1.54.1", features = ["full"] }
tokio-stream = "=0.1.19"
uuid = { version = "=1.29.0", features = ["v4"] }
