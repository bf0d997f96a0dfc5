[package]
name = "udp_obfuscat"
version = "0.1.0"
edition = "2021"
publish = false

[dependencies]
anyhow = "1"
base64 = "0.22"
clap = { version = "4", features = ["derive"] }
env_logger = "0.11"
futures = "0.3"
log = { version = "0.4", features = ["serde"] }
nix = { version = "0.29", features = ["user"] }
serde = { version = "1", features = ["derive"] }
systemd-journal-logger = "2"
tokio = { version = "1", features = ["macros", "net", "rt-multi-thread", "sync", "time"] }
toml = "0.8"
