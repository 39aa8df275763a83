[package]
name = "fanservice"
version = "0.3.0"
edition = "2021"
publish = false

[dependencies]
bincode = "1"
serde = { version = "1", features = ["derive"] }
log = "0.4"
env_logger = "0.9"
clap = "2"
ipmiraw = "*"
sensors = "*"
