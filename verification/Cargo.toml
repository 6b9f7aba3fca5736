[package]
name = "config"
version = "0.1.0"
edition = "2021"
publish = false

[dependencies]
git2 = { version = "0.18", default-features = false }
anyhow = "1"

[dev-dependencies]
tempfile = "3"
