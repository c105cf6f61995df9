[package]
name = "super_daemon"
version = "0.1.0"
edition = "2021"
publish = false

[dependencies]
serde_json = "*"
tokio = { version = "*", features = ["net", "io-util", "rt-multi-thread", "macros", "sync", "time"] }
sysinfo = "*"
clap = { version = "*", features = ["derive"] }
uuid = { version = "*", features = ["v4"] }
