[package]
name = "bot_relay"
version = "0.1.0"
edition = "2021"
publish = false

[dependencies]
futures-util = { version = "0.3", features = ["sink"] }
log = "0.4"
pretty_env_logger = "0.5"
reqwest = { version = "0.11", features = ["multipart", "stream"] }
tokio = { version = "1", features = ["fs", "macros", "rt-multi-thread", "sync", "time"] }
warp = { version = "0.3", features = ["tls"] }
