[package]
name = "ultra_meeting_core"
version = "0.1.0"
edition = "2021"
publish = false

[dependencies]
chrono = { version = "0.4", features = ["serde"] }
uuid = { version = "1", features = ["v4"] }
serde = { version = "1", features = ["derive"] }
serde_json = "1"
serde_yaml = "0.9"
hound = "3"
rtrb = "0.3"
cpal = "*"
dirs = "*"
once_cell = "1"
thiserror = "1"
tracing = "0.1"
tracing-subscriber = "0.3"
whisper-rs = "*"
