[package]
name = "pesto"
version = "0.1.0"
edition = "2021"
publish = false

[dependencies]
anyhow = "=1.0.104"
bytes = "=1.12.1"
chrono = "=0.4.45"
clap = { version = "=4.6.7", features = ["derive"] }
clap-verbosity-flag = { version = "=3.0.4", features = ["tracing"] }
metrics = "=0.24.6"
metrics-exporter-prometheus = "=0.18.3"
rdkafka = "=0.39.0"
sflow-parser = "=0.7.0"
tokio = { version = "=1.53.2", features = ["full"] }
tokio-graceful = "=0.2.2"
tracing = "=0.1.44"
tracing-subscriber = "=0.3.23"
