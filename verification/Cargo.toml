[package]
name = "spewcap"
version = "0.1.0"
edition = "2021"
publish = false

[dependencies]
chrono = "*"
clap = { version = "*", features = ["derive"] }
colored = "*"
crossterm = "*"
dialoguer = "*"
rfd = "*"
serde = { version = "*", features = ["derive"] }
serialport5 = "*"
signal-hook = "*"
term_size = "*"
toml = "*"
