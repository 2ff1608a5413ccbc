[package]
name = "candle_chart"
version = "0.1.0"
edition = "2021"
publish = false

[dependencies]
chrono = { version = "0.4", default-features = false, features = ["std"] }
iced = { version = "0.9", default-features = false, features = ["canvas", "glow"] }
rand = "0.8"
