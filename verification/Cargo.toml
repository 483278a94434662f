[package]
name = "status_bar"
version = "0.1.0"
edition = "2021"
publish = false

[dependencies]
anyhow = "1"
chrono = { version = "0.4", default-features = false, features = ["clock", "std"] }
regex = "1"
tokio = { version = "1", features = ["rt-multi-thread", "macros", "process", "time"] }
x11rb = "*"
