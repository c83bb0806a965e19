[package]
name = "playback"
version = "0.1.0"
edition = "2021"
publish = false

[dependencies]
anyhow = "1"
clap = "4"
clap_complete = "4"
crossbeam-channel = "0.5"
mlua = { version = "0.10", features = ["lua54", "vendored", "serialize"] }
notify = "8"
parking_lot = "0.12"
raw-window-handle = "0.6"
serde = { version = "1", features = ["derive"] }
serde_json = "1"
thiserror = "2"
tracing = "0.1"
tracing-subscriber = { version = "0.3", features = ["env-filter"] }
