[package]
name = "iml"
version = "0.1.0"
edition = "2021"
publish = false

[dependencies]
regex = "1"
hostlist-parser = "*"
natord = "1"
chrono = "0.4"
serde = { version = "1", features = ["derive"] }
serde_json = "1"
