[package]
name = "media_sessions"
version = "0.1.0"
edition = "2021"
publish = false

[dependencies]
tokio = { version = "=1.54.1", default-features = false, features = ["rt", "sync", "time"] }
windows = { version = "0.51.1", default-features = false, features = ["Media_Control"] }
