[package]
name = "jikura"
version = "0.1.0"
edition = "2021"
publish = false

[dependencies]
chrono = "0.4"
bollard = "0.19"
tokio = { version = "1", features = ["rt-multi-thread", "macros", "sync", "time"] }
ratatui = "0.29"
crossterm = "0.28"
clap = { version = "4", features = ["derive"] }
anyhow = "1"
serde = { version = "1", features = ["derive"] }
toml = "0.8"
thiserror = "2"
