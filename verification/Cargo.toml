[package]
name = "songreq"
version = "0.1.0"
edition = "2021"
publish = false

[dependencies]
twitch_message = "*"
fastrand = "*"
tokio = { version = "*", features = ["rt-multi-thread", "net", "io-util", "time", "sync", "macros"] }
rusqlite = { version = "*", features = ["bundled"] }
