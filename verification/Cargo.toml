[package]
name = "now_playing"
version = "0.1.0"
edition = "2021"
publish = false

[dependencies]
base64 = "0.22"
url = "2"
serde = { version = "1", features = ["derive"] }
serde_json = "1"
toml = "0.8"
directories = "5"
tokio = { version = "1", features = ["rt-multi-thread", "macros", "sync", "time", "net"] }
tokio-stream = { version = "0.1", features = ["net"] }
async-stream = "0.3"
parking_lot = "0.12"
tracing = "0.1"
tracing-subscriber = "0.3"
warp = "0.3"
obws = "0.14"
rust_socketio = "0.6"
reqwest = "0.11"
oauth2 = { version = "4.4", features = ["reqwest"] }
tiny_http = "0.12"
open = "5"
