[package]
name = "solaris_tty"
version = "0.1.0"
edition = "2021"
publish = false

[dependencies]
anyhow = "1"
crossterm = "0.28"
glam = "0.29"
serde = { version = "1", features = ["derive"] }
toml = "0.8"
