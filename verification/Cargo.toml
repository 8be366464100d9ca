[package]
name = "ferriscan"
version = "0.1.0"
edition = "2021"
publish = false

[dependencies]
tempfile = "3"
anyhow = "1"
clap = { version = "4", features = ["derive"] }
colored = "2"
comfy-table = "7"
serde = { version = "1", features = ["derive"] }
serde_json = "1"
toml = "0.8"
glob = "0.3"
walkdir = "2"
rust-code-analysis = "*"
thiserror = "1"
derive_more = { version = "1", features = ["full"] }
