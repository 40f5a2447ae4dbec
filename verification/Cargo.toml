[package]
name = "t9s"
version = "0.1.0"
edition = "2021"
publish = false

[dependencies]
serde_json = "1"
serde = { version = "1", features = ["derive"] }
ratatui = "*"
crossterm = { version = "*", features = ["event-stream"] }
tokio = { version = "1", features = ["full"] }
futures = "0.3"
chrono = "0.4"
clap = { version = "4", features = ["derive", "env"] }
color-eyre = "*"
dotenvy = "*"
dirs = "*"
toml = "*"
tonic = "*"
prost = "*"
prost-types = "*"
async-trait = "0.1"
thiserror = "*"
tracing = "0.1"
tracing-subscriber = { version = "0.3", features = ["env-filter"] }
uuid = { version = "1", features = ["v4"] }
