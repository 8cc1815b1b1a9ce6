[package]
name = "r433rrd_rs"
version = "0.1.0"
edition = "2021"
publish = false

[dependencies]
async-process = "*"
env_logger = "*"
log = "0.4"
serde = { version = "1", features = ["derive"] }
serde_derive = "1"
serde_json = "1"
tokio = { version = "1", features = ["macros", "net", "rt-multi-thread"] }
toml = "*"
