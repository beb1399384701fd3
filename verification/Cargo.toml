[package]
name = "serial_relay"
version = "0.1.0"
edition = "2021"
publish = false

[dependencies]
clap = { version = "*", features = ["derive"] }
crossterm = "*"
tokio = { version = "*", features = ["io-std", "io-util", "macros", "rt-multi-thread", "sync"] }
tokio-serial = "*"
