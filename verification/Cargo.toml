[package]
name = "stream_recorder"
version = "0.1.0"
edition = "2021"
publish = false

[dependencies]
anyhow = "=1.0.104"
bytes = "=1.12.1"
chrono = "=0.4.45"
clap = { version = "=4.6.7", features = ["derive"] }
hls_m3u8 = "=0.4.2"
lofty = "=0.25.4"
log = "=0.4.34"
regex = "=1.13.1"
reqwest = { version = "=0.11.27", features = ["json", "multipart"] }
rusqlite = { version = "=0.41.0", features = ["blob", "bundled"] }
serde_json = "=1.0.154"
simplelog = "=0.12.2"
tokio = { version = "=1.54.1", features = ["macros", "rt-multi-thread", "time"] }
tokio-stream = "=0.1.19"
uuid = { version = "=1.29.0", features = ["v4"] }
