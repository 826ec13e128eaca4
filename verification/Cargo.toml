[package]
name = "led_controller"
version = "0.1.0"
edition = "2021"
publish = false

[dependencies]
serde_json = "*"
tokio = { version = "*", features = ["rt", "net", "macros", "sync", "time"] }
axum = { version = "*", features = ["ws"] }
futures = "*"
anyhow = "*"
log = "*"
