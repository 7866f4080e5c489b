[package]
name = "xgreeter"
version = "0.1.0"
edition = "2021"
publish = false

[dependencies]
anyhow = "1"
ansi-to-tui = "7"
clap = { version = "4", features = ["derive"] }
crossterm = { version = "0.28", features = ["event-stream"] }
futures = "0.3"
greetd_ipc = { version = "0.10", features = ["tokio-codec"] }
ratatui = "0.29"
tokio = { version = "1", features = ["full"] }
