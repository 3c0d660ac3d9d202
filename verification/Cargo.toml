[package]
name = "easy-proxy"
version = "1.1.0"
edition = "2021"
publish = false

[dependencies]
anyhow = "=1.0.104"
clap = { version = "=4.6.7", features = ["derive"] }
dialoguer = "=0.12.0"
dirs = "=5.0.1"
hex = "=0.4.3"
libc = "=0.2.191"
rand = "=0.8.8"
regex = "=1.13.1"
rsa = "=0.9.10"
serde = { version = "=1.0.229", features = ["derive"] }
serde_json = "=1.0.154"
serde_yaml = "=0.9.34"
signal-hook = "=0.3.18"
tokio = { version = "=1.54.1", features = ["rt-multi-thread", "net", "process", "time", "signal", "io-util", "macros", "sync"] }
unicode-width = "=0.2.3"
