[package]
name = "simple_http"
version = "0.1.0"
edition = "2021"
publish = false

[dependencies]
serde = { version = "*", features = ["derive"] }
toml = "*"
log = "*"
simple_logger = "*"
