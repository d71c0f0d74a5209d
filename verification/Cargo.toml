[package]
name = "backup_pi"
version = "0.1.0"
edition = "2021"
publish = false

[dependencies]
base64 = "*"
dotenvy = "*"
futures-util = "*"
serde = { version = "*", features = ["derive"] }
serde_json = "*"
thiserror = "*"
time = "*"
time-tz = "*"
tokio = { version = "*", features = ["macros", "rt-multi-thread", "time", "sync", "fs"] }
tokio-tungstenite = "*"
tracing = "*"
tracing-subscriber = "*"
