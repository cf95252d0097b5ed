[package]
name = "web_capture"
version = "0.1.0"
edition = "2021"
publish = false

[dependencies]
chrono = "0.4"
headless_chrome = "1"
