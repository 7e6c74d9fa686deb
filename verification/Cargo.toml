[package]
name = "esp_syslog"
version = "0.1.0"
edition = "2021"
publish = false

[dependencies]
error-chain = { version = "0.12", default-features = false }
log = { version = "0.4", features = ["std"] }
time = "0.1"
