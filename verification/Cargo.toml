[package]
name = "tweakpoint"
version = "0.1.0"
edition = "2021"
publish = false

[dependencies]
anyhow = "1"
clap = { version = "4", features = ["derive"] }
evdev = { version = "*", features = ["tokio", "serde"] }
figment = { version = "*", features = ["toml"] }
humantime-serde = "1"
serde = { version = "1", features = ["derive"] }
smart-default = "*"
tokio = { version = "1", features = ["full"] }
toml = "*"
tracing = "0.1"
tracing-subscriber = { version = "0.3", features = ["env-filter"] }
