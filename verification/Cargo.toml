[package]
name = "cargo_stripe"
version = "0.1.0"
edition = "2021"
publish = false

[dependencies]
anyhow = "1"
clap = { version = "4", features = ["derive"] }
colored = "2"
tokio = { version = "1", features = ["rt-multi-thread", "macros"] }
toml = "0.8"
uuid = { version = "1", features = ["v4"] }
