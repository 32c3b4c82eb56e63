[package]
name = "audio_chat"
version = "0.1.0"
edition = "2021"
publish = false

[dependencies]
opus = "=0.4.0"
tokio = { version = "=1.54.1", features = ["rt-multi-thread", "macros", "sync", "time"] }
tokio-tungstenite = "=0.30.0"
futures-util = "=0.3.34"
serde = { version = "=1.0.229", features = ["derive"] }
serde_json = "=1.0.154"
toml = "=1.1.8"
tracing = "=0.1.44"
tracing-subscriber = { version = "=0.3.23", features = ["local-time"] }
time = { version = "=0.3.55", features = ["macros", "formatting", "local-offset"] }
anyhow = "=1.0.104"
lazy_static = "=1.5.1"
cpal = "=0.15.3"
rubato = "=0.16.2"
