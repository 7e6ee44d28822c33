[package]
name = "sensor_program"
version = "0.1.0"
edition = "2021"
publish = false

[dependencies]
rppal = "0.14"
serde = { version = "1", features = ["derive"] }
serde_json = "1"
