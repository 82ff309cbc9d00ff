[package]
name = "spkrd"
version = "0.1.0"
edition = "2021"
publish = false

[dependencies]
axum = "*"
chrono = "*"
clap = { version = "*", features = ["derive"] }
daemonize = "*"
env_logger = "*"
log = "*"
syslog = "*"
tokio = { version = "*", features = ["rt-multi-thread", "net", "time"] }
