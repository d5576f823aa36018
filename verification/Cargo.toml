[package]
name = "mpd_remote"
version = "0.1.0"
edition = "2021"
publish = false

[dependencies]
bytes = "1"
futures-channel = { version = "0.3", features = ["sink"] }
lazy_static = "1"
mpd_client = "1"
tokio = { version = "1", features = ["net"] }
tracing = "0.1"
tracing-subscriber = { version = "0.3", features = ["env-filter"] }
