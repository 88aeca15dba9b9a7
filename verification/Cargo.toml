[package]
name = "meetily_audio"
version = "0.1.0"
edition = "2021"
publish = false

[dependencies]
anyhow = "1"
chrono = { version = "0.4", default-features = false, features = ["clock", "std"] }
cpal = "0.15"
futures-util = { version = "0.3", default-features = false, features = ["std"] }
lazy_static = "1.4"
libpulse-binding = "2"
libpulse-simple-binding = "2"
log = "0.4"
serde = { version = "1", features = ["derive"] }
serde_json = "1"
tokio = { version = "1", default-features = false, features = ["rt", "sync", "time"] }
