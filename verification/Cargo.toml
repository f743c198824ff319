[package]
name = "arduino_esp32_cloud_compiler"
version = "0.1.0"
edition = "2021"
publish = false

[dependencies]
serde_json = "*"
serde = { version = "*", features = ["derive"] }
tokio = { version = "*", features = ["full"] }
axum = "*"
socketioxide = "*"
tracing = "*"
tracing-subscriber = "*"
