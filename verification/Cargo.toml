[package]
name = "filegate"
version = "0.1.0"
edition = "2021"
publish = false

[dependencies]
serde_json = "1.0"
log = "0.4"
tokio = { version = "1", features = ["rt-multi-thread", "macros", "fs", "io-util", "io-std"] }
dotenv = "0.15"
env_logger = "0.11"
