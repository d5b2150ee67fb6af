[package]
name = "isuketch"
version = "0.1.0"
edition = "2021"
publish = false

[dependencies]
chrono = "=0.4.45"
serde_json = "=1.0.154"
serde = { version = "=1.0.229", features = ["derive"] }
lazy_static = "=1.5.1"
mysql = { version = "=16.1.0", default-features = false, features = ["flate2-rust_backend"] }
nickel = "=0.11.0"
hyper = "=0.10.16"
