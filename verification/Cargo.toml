[package]
name = "candle_patterns"
version = "0.1.0"
edition = "2021"
publish = false

[dependencies]
chrono = "*"
chrono-tz = "=0.10.4"
