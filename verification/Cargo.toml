[package]
name = "normify"
version = "0.1.0"
edition = "2021"
publish = false

[dependencies]
chrono = { version = "0.4", default-features = false, features = ["std", "clock"] }
thiserror = "2"
tracing = "0.1"
