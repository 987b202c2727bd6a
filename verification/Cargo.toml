[package]
name = "to_do_app"
version = "0.1.0"
edition = "2021"
publish = false

[dependencies]
bincode = "1"
chrono = { version = "0.4", default-features = false, features = ["std"] }
colorize = "*"
csv = "1"
serde = { version = "1", features = ["derive"] }
serde_derive = "1"
