[package]
name = "health_check_cli"
version = "0.1.0"
edition = "2021"
publish = false

[dependencies]
anyhow = "1"
clap = { version = "4", features = ["derive"] }
tokio = { version = "1", features = ["rt", "rt-multi-thread", "macros", "time"] }
url = "2"
uuid = { version = "1", features = ["v4"] }
