[package]
name = "nmts"
version = "0.1.0"
edition = "2021"
publish = false

[dependencies]
petgraph = "=0.6.5"
regex = "=1.13.1"
encoding_rs = "=0.8.44"
serde = { version = "=1.0.229", features = ["derive"] }
serde_json = "=1.0.154"
serde_yaml = "=0.9.34"
sha1 = "=0.10.7"
base64 = "=0.22.1"
chrono = "=0.4.45"
clap = { version = "=4.6.7", features = ["derive"] }
zip = { version = "=2.6.1", default-features = false, features = ["deflate"] }
serialport = { version = "=4.10.1", default-features = false }
anyhow = "=1.0.104"
ratatui = "0.29"
tokio = { version = "1", features = ["rt-multi-thread", "sync", "time", "net", "io-util"] }
tracing = "0.1"
tracing-subscriber = { version = "0.3", features = ["env-filter"] }
tracing-appender = "0.2"
