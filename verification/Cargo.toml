[package]
name = "rust_world"
version = "0.1.0"
edition = "2021"
publish = false

[dependencies]
noise = "*"
rand = "*"
serde = { version = "*", features = ["derive"] }
serde_json = "*"
