[package]
name = "keystore2"
version = "0.1.0"
edition = "2021"
publish = false

[dependencies]
anyhow = "1"
rusqlite = { version = "0.29.0", features = ["bundled"] }
serde = { version = "1", features = ["derive"] }
thiserror = "1"
