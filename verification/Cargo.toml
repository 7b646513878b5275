[package]
name = "pk-auto-push"
version = "0.1.0"
edition = "2021"
publish = false

[dependencies]
chrono = { version = "0.4", default-features = false, features = ["clock", "std"] }
dotenvy = "0.15"
env_logger = "0.11"
log = "0.4"
thiserror = "2"
