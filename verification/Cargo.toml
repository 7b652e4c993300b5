[package]
name = "regpoll"
version = "0.1.0"
edition = "2021"
publish = false

[dependencies]
rand = "=0.8.8"
anyhow = "=1.0.104"
tokio = { version = "=1.53.2", features = ["full"] }
tokio-modbus = { version = "=0.17.0", features = ["tcp-server"] }
tui = "=0.19.0"
