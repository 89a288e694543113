[package]
name = "nooboard_gui"
version = "0.1.0"
edition = "2021"
publish = false

[dependencies]
anyhow = "1"
clap = { version = "4", features = ["derive"] }
time = { version = "0.3", features = ["local-offset"] }
tokio = { version = "1", features = ["sync"] }
