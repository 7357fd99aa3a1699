[package]
name = "taskpanel"
version = "0.1.0"
edition = "2021"
publish = false

[dependencies]
chrono = "*"
embedded-graphics = "*"
epd-waveshare = "*"
u8g2-fonts = "*"
anyhow = "*"
log = "*"
serde = { version = "*", features = ["derive"] }
serde_json = "*"
