[package]
name = "sudachi"
version = "0.1.0"
edition = "2021"
publish = false

[dependencies]
serde_json = "*"
memmap2 = "*"
clap = { version = "*", features = ["derive"] }
