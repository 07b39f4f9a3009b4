[package]
name = "account_switch"
version = "0.1.0"
edition = "2021"
publish = false

[dependencies]
chrono = { version = "=0.4.45", default-features = false, features = ["clock", "std"] }
dirs = "=5.0.1"
sysinfo = { version = "=0.31.4", default-features = false, features = ["system"] }
url = "=2.5.8"
serde = { version = "=1.0.229", features = ["derive"] }
