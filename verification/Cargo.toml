[package]
name = "apple_intelligence"
version = "0.1.0"
edition = "2021"
publish = false

[dependencies]
serde = { version = "1", features = ["derive"] }
serde_json = "1"
thiserror = "2"
tokio = { version = "1", default-features = false, features = ["sync", "rt"] }
once_cell = "1"
tauri = { version = "2", default-features = false }
