[package]
name = "statusline"
version = "0.1.0"
edition = "2021"
publish = false

[dependencies]
anyhow = "1"
chrono = "0.4"
mpd_client = "*"
tokio = { version = "1", features = ["rt", "macros", "process", "net", "sync", "time"] }
unicode-segmentation = "1"

[dev-dependencies]
serde_json = "1"
