[package]
name = "alarm_clock"
version = "0.1.0"
edition = "2021"
publish = false

[dependencies]
anyhow = "1"
chrono = "0.4"
fltk = "1"
notify = "4"
rodio = "0.17"
serde = { version = "1", features = ["derive"] }
serde_yaml = "0.9"
