[package]
name = "pomodoro"
version = "0.1.0"
edition = "2021"
publish = false

[dependencies]
anyhow = "1"
rodio = "0.20"
serde = { version = "1", features = ["derive"] }
serde_json = "1"
ts-rs = "10"
