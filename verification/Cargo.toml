[package]
name = "mygame_core"
version = "0.1.0"
edition = "2021"
publish = false

[dependencies]
crossbeam-channel = "*"
serde = { version = "*", features = ["derive"] }
ron = "*"
clap = { version = "*", features = ["derive"] }
