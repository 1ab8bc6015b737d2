[package]
name = "niri_transport"
version = "0.1.0"
edition = "2021"
publish = false

[dependencies]
niri-ipc = "*"
serde_json = "1"
tokio = { version = "1", features = ["net", "io-util"] }
async-net = "2"
futures-lite = "2"
thiserror = "*"
