[package]
name = "yandex_upd_monitor"
version = "0.1.0"
edition = "2021"
publish = false

[dependencies]
bincode = { version = "2", features = ["serde"] }
chrono = { version = "0.4", default-features = false, features = ["clock", "std"] }
env_logger = { version = "0.11", default-features = false }
log = "0.4"
serde = { version = "1", features = ["derive"] }
