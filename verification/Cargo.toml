[package]
name = "libra_tools"
version = "0.1.0"
edition = "2021"
publish = false

[dependencies]
anyhow = "1"
diem-sdk = "*"
serde = { version = "1", features = ["derive"] }
serde_json = "1"
