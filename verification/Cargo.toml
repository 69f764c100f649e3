[package]
name = "wiki"
version = "0.1.0"
edition = "2021"
publish = false

[dependencies]
argon2 = { version = "0.5", features = ["std"] }
axum = "0.8"
chrono = "0.4"
comrak = { version = "*", default-features = false }
jsonwebtoken = "9"
rusqlite = "*"
serde = { version = "1", features = ["derive"] }
serde_json = { version = "1", features = ["preserve_order"] }
tokio = { version = "1", features = ["full"] }
tower-http = { version = "0.6", features = ["fs"] }
tower-service = "0.3"
