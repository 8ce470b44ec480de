[package]
name = "oat"
version = "0.1.0"
edition = "2021"
publish = false

[dependencies]
chrono = "0.4"
dirs = "5"
futures = "0.3"
hex = "0.4"
md-5 = "0.10"
qrcode = { version = "0.14", default-features = false, features = ["svg"] }
rand = "0.8"
reqwest = { version = "0.12", features = ["json"] }
seahorse = "2"
self_update = "*"
semver = "1"
serde = { version = "1", features = ["derive"] }
serde_json = "1"
sha2 = "0.10"
tokio = { version = "1", features = ["macros", "rt-multi-thread"] }
