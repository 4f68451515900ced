[package]
name = "manini"
version = "0.1.0"
edition = "2021"
publish = false

[dependencies]
http = "1"
memchr = "2"
anyhow = "1"
aws-config = "1"
aws-sdk-ecs = "1"
clap = { version = "4", features = ["derive", "env"] }
env_logger = "0.11"
http-body-util = "0.1"
hyper = { version = "1", features = ["client", "http1", "server"] }
hyper-util = { version = "0.1", features = ["client-legacy", "http1", "http2", "server", "server-auto", "service", "tokio"] }
log = "0.4"
pin-project-lite = "0.2"
tokio = { version = "1", features = ["io-util", "macros", "net", "rt", "sync", "time"] }
