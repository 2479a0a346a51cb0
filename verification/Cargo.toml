[package]
name = "akriveia"
version = "0.1.0"
edition = "2021"
publish = false

[dependencies]
eui48 = { version = "=1.1.0", default-features = false }
ipnet = "=2.12.2"
regex = "=1.13.1"
chrono = "=0.4.45"
serde = { version = "=1.0.229", features = ["derive"] }
rand = "0.8"
