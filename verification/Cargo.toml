[package]
name = "conversation_audio"
version = "0.1.0"
edition = "2021"
publish = false

[dependencies]
anyhow = "=1.0.104"
cpal = "=0.15.3"
futures = "=0.3.34"
log = "=0.4.34"
once_cell = "=1.21.4"
rodio = { version = "=0.17.3", default-features = false }
serde = { version = "=1.0.229", features = ["derive"] }
serde_yaml = "=0.9.34"
tokio = { version = "=1.54.1", features = ["rt", "sync", "time"] }
whisper-rs = "*"
