[package]
name = "sumplayer"
version = "0.1.0"
edition = "2021"
publish = false

[dependencies]
base64 = "=0.22.1"
chrono = "=0.4.45"
urlencoding = "=2.1.3"
url = "2"
serde = { version = "1", features = ["derive"] }
serde_json = "1"
dirs = "5"
open = "5"
tiny_http = "0.12"
tokio = { version = "1", features = ["sync", "rt", "time", "macros"] }
