[package]
name = "framed_udp"
version = "0.1.0"
edition = "2021"
publish = false

[dependencies]
anyhow = "1"
bytes = "1"
futures = "0.3"
log = "0.4"
protobuf = "3"
socket2 = { version = "0.3", features = ["reuseport"] }
tokio = { version = "1", features = ["net", "time", "rt"] }
tokio-socks = "0.5"
tokio-util = { version = "0.7", features = ["codec", "net"] }
