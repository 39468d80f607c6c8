[package]
name = "autogen_rust"
version = "0.1.0"
edition = "2021"
publish = false

[dependencies]
serde_json = "*"
serde = { version = "*", features = ["derive"] }
tokio = { version = "*", features = ["full"] }
rusqlite = { version = "*", features = ["bundled"] }
anyhow = "*"
reqwest = { version = "*", default-features = false, features = ["rustls-tls", "json"] }
chrono = "*"
dotenv = "*"
