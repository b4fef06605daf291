[package]
name = "maestro"
version = "0.1.0"
edition = "2021"
publish = false

[dependencies]
uuid = { version = "1", features = ["v4"] }
chrono = { version = "0.4", default-features = false, features = ["clock", "std"] }
base64 = "0.22"
sha2 = "0.10"
hex = "0.4"
serde = { version = "1", features = ["derive"] }
serde_json = "1"
tokio = { version = "1", features = ["fs", "process", "time", "io-util", "rt", "rt-multi-thread", "macros", "sync", "net"] }
thiserror = "2"
portable-pty = "*"
