[package]
name = "mcservernap"
version = "0.1.0"
edition = "2021"
publish = false

[dependencies]
anyhow = "=1.0.104"
base64 = "=0.22.1"
clap = { version = "=4.6.7", features = ["derive", "env"] }
dirs = "=6.0.0"
env_logger = "=0.11.11"
getrandom = "=0.3.4"
image = { version = "=0.25.10", default-features = false, features = ["png", "jpeg", "gif", "webp", "bmp"] }
log = "=0.4.35"
nix = { version = "=0.30.1", features = ["fs", "process", "signal", "user", "socket"] }
serde = { version = "=1.0.229", features = ["derive"] }
serde_json = "=1.0.154"
tokio = { version = "=1.54.1", features = ["full"] }
toml = "=0.9.12"
