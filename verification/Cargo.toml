[package]
name = "buildkit_frontend"
version = "0.1.0"
edition = "2021"
publish = false

[dependencies]
serde = { version = "*", features = ["derive"] }
serde_json = "*"
libc = "*"
tokio = { version = "*", features = ["rt", "io-util", "net", "macros"] }
