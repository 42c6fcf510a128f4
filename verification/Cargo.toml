[package]
name = "weather_cli"
version = "0.1.0"
edition = "2021"
publish = false

[dependencies]
rust-ini = "0.18"
chrono = "0.4"
clap = { version = "3", features = ["derive"] }
tokio = { version = "1", features = ["macros", "rt-multi-thread"] }
tonic = "0.8"
