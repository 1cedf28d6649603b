[package]
name = "meeting_auto_pause"
version = "0.1.0"
edition = "2021"
publish = false

[dependencies]
chrono = "=0.4.45"
eframe = { version = "0.29", default-features = false, features = ["default_fonts", "glow", "x11"] }
regex = "=1.13.1"
tokio = { version = "=1.54.1", features = ["io-util", "process", "rt-multi-thread"] }
