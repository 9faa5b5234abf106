[package]
name = "transition"
version = "0.1.0"
edition = "2021"
publish = false

[dependencies]
blinkrs = "*"
crossbeam-channel = "*"
failure = { version = "*", default-features = false, features = ["std"] }
serde = { version = "*", features = ["derive"] }
thiserror = "*"
