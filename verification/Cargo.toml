[package]
name = "iot_gateway"
version = "0.1.0"
edition = "2021"
publish = false

[dependencies]
rustls = { version = "0.21", features = ["dangerous_configuration"] }
rustls-pemfile = "1.0"
tokio = { version = "1", features = ["full"] }
tokio-rustls = "0.24"
serde = { version = "1", features = ["derive"] }
serde_json = "1"
uuid = { version = "1", features = ["v4", "serde"] }
tracing = "0.1"
tracing-subscriber = "0.3"
clap = { version = "4", features = ["derive"] }
futures-util = "0.3"
psutil = "3"
