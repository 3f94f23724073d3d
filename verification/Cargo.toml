[package]
name = "folden"
version = "0.1.0"
edition = "2021"
publish = false

[dependencies]
crossbeam = "=0.8.5"
notify = "=8.2.1"
regex = "=1.13.1"
chrono = "=0.4.45"
serde = { version = "=1.0.229", features = ["derive"] }
serde_json = "=1.0.154"
toml = "=1.1.8"
typetag = "=0.2.23"
clap = "=4.6.7"
cli-table = "=0.5.0"
tokio = { version = "=1.54.1", features = ["sync", "rt-multi-thread", "macros"] }
tracing = "=0.1.44"
tracing-subscriber = { version = "=0.3.23", features = ["env-filter"] }
tracing-appender = "=0.2.5"
windows-service = "*"
