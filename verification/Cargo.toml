[package]
name = "deployerd"
version = "1.0.0"
edition = "2021"
publish = false

[dependencies]
async-std = "1"
bytes = "1"
clap = { version = "4", features = ["derive"] }
env_logger = "0.11"
flate2 = "1"
hostname = "0.4"
log = "0.4"
reqwest = "0.12"
serde_json = "1"
tar = "0.4"
tokio = { version = "1", features = ["macros", "rt-multi-thread"] }
