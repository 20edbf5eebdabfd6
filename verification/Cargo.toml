[package]
name = "socks5ws"
version = "0.1.0"
edition = "2021"
publish = false

[dependencies]
anyhow = "*"
async-stream = "*"
clap = { version = "*", features = ["derive"] }
ctrlc = "*"
fast-socks5 = "*"
flexi_logger = { version = "*", features = ["async", "specfile"] }
log = "*"
serde = { version = "*", features = ["derive"] }
serde_derive = "*"
tokio = { version = "*", features = ["rt-multi-thread", "net", "macros", "sync", "time", "io-util"] }
tokio-stream = { version = "*", features = ["net"] }
tokio-util = "*"
toml = "*"
windows-service = "*"
