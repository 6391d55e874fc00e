[package]
name = "mdtask"
version = "0.1.0"
edition = "2021"
publish = false

[dependencies]
anyhow = "*"
chrono = { version = "*", features = ["serde"] }
markdown = "*"
serde = { version = "*", features = ["derive"] }
serde_json = "*"
