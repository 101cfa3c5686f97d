[package]
name = "sms-chat"
version = "0.1.0"
edition = "2021"
publish = false

[dependencies]
axum = "=0.6.20"
chrono = "=0.4.45"
configparser = "=3.3.0"
crossterm = "=0.28.1"
log = "=0.4.34"
ngrok = { version = "=0.13.1", features = ["axum"] }
ratatui = "=0.29.0"
reqwest = "=0.11.27"
serde = { version = "=1.0.229", features = ["derive"] }
serde_json = "=1.0.154"
simple-logging = "=2.0.2"
tokio = { version = "=1.54.1", features = ["macros", "rt-multi-thread"] }
