[package]
name = "mhlog"
version = "0.1.0"
edition = "2021"
publish = false

[dependencies]
console = "*"
lazy_static = "1"
chrono = { version = "0.4", default-features = false, features = ["clock"] }
