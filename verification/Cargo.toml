[package]
name = "sinuous"
version = "0.1.0"
edition = "2021"
publish = false

[dependencies]
anyhow = "1"
clap = { version = "4", features = ["cargo"] }
crossterm = { version = "0.28", features = ["event-stream"] }
futures = "0.3"
ratatui = "0.29"
sonor = "0.1"
tokio = { version = "1", features = ["macros", "rt-multi-thread", "sync", "time"] }
