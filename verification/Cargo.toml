[package]
name = "aria2_mcp"
version = "0.1.0"
edition = "2021"
publish = false

[dependencies]
regex = "*"
serde_json = "*"
tokio = { version = "*", features = ["rt-multi-thread", "macros", "time"] }
reqwest = { version = "*", default-features = false, features = ["json", "rustls-tls"] }
chrono = "*"
log = "*"
env_logger = "*"
futures-util = "*"
