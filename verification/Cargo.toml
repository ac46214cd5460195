[package]
name = "polar_analyzer"
version = "0.1.0"
edition = "2021"
publish = false

[dependencies]
polar-core = "=0.20.1"
serde = { version = "=1.0.229", features = ["derive"] }
