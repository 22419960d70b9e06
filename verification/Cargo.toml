[package]
name = "burnchains"
version = "0.1.0"
edition = "2021"
publish = false

[dependencies]
rusqlite = { version = "0.24.2", features = ["bundled"] }
sha2 = "0.10"
serde = { version = "1", features = ["derive"] }
