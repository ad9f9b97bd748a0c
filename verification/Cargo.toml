[package]
name = "rustjay_404"
version = "0.1.0"
edition = "2021"
publish = false

[dependencies]
anyhow = "1"
midir = "*"
rosc = "*"
serde = { version = "1", features = ["derive"] }
serde_json = "1"
toml = "*"
