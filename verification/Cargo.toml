[package]
name = "tdf"
version = "0.1.0"
edition = "2021"
publish = false

[dependencies]
kittage = { version = "=0.4.0", features = ["crossterm-tokio", "image-crate"] }
crossterm = { version = "=0.29.0", features = ["event-stream"] }
image = { version = "=0.25.10", default-features = false, features = ["png"] }
ratatui = "=0.30.2"
log = "=0.4.35"
mimalloc = "=0.1.52"
