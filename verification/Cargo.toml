[package]
name = "little-stomper"
version = "0.3.0"
edition = "2021"
publish = false

[dependencies]
stomp-parser = "=0.8.0"
uuid = { version = "=1.29.0", features = ["v4"] }
tokio = { version = "=1.54.1", features = ["sync", "rt", "rt-multi-thread", "macros", "time", "net", "test-util"] }
futures = "=0.3.34"
tokio-stream = "=0.1.19"
log = "=0.4.35"
im = "=15.1.0"
async-map = "=0.2.3"
sender-sink = "=0.2.1"
tokio-tungstenite = "=0.30.0"
env_logger = "=0.11.11"
