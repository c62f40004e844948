[package]
name = "open_net"
version = "0.1.0"
edition = "2021"
publish = false

[dependencies]
bytes = "=1.12.1"
futures = "=0.3.34"
httparse = "=1.10.1"
networkframework = "*"
reqwest = { version = "=0.13.5", default-features = false }
rustls = { version = "=0.23.46", default-features = false, features = ["std", "tls12", "logging", "aws-lc-rs"] }
socket2 = { version = "=0.6.5", features = ["all"] }
tokio = { version = "=1.54.1", features = ["full"] }
tokio-rustls = { version = "=0.26.6", default-features = false, features = ["tls12"] }
tokio-tungstenite = { version = "=0.30.0", features = ["connect", "handshake", "__rustls-tls"] }
tokio-util = { version = "=0.7.20", features = ["rt"] }
webpki-roots = "=1.0.10"
