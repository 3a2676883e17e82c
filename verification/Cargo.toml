[package]
name = "pty_supervisor"
version = "0.1.0"
edition = "2021"
publish = false

[dependencies]
anyhow = "1"
libc = "0.2"
portable-pty = "*"
tokio = { version = "1", features = ["rt", "sync"] }
