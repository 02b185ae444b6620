[package]
name = "scupper"
version = "0.1.0"
edition = "2021"
publish = false

[dependencies]
anyhow = "=1.0.104"
axum = "=0.6.20"
clap = { version = "=4.6.7", features = ["derive"] }
ngrok = { version = "=0.13.1", features = ["axum"] }
tokio = { version = "=1.53.2", features = ["macros", "rt-multi-thread", "fs", "io-util"] }
tokio-util = { version = "=0.7.19", features = ["io"] }
