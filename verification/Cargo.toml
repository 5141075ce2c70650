[package]
name = "calendar_feed"
version = "0.1.0"
edition = "2021"
publish = false

[dependencies]
axum = "0.6"
chrono = "0.4"
env_logger = "0.10"
icalendar = "*"
log = "0.4"
tokio = { version = "1", features = ["full"] }
