[package]
name = "micround"
version = "0.1.0"
edition = "2021"
publish = false

[dependencies]
anyhow = "1"
dirs = "*"
global-hotkey = "*"
serde = { version = "1", features = ["derive"] }
thiserror = "*"
tokio = { version = "1", features = ["full"] }
toml = "*"
tracing = "0.1"
tracing-subscriber = { version = "0.3", features = ["env-filter", "fmt"] }
v4l = "*"
