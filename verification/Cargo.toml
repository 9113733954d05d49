[package]
name = "dnf5daemon"
version = "0.1.0"
edition = "2021"
publish = false

[dependencies]
zbus = "*"
tokio = { version = "*", features = ["macros", "rt-multi-thread"] }
futures = "*"
log = "*"
env_logger = "*"
clap = { version = "*", features = ["derive"] }
termion = "*"
serde = { version = "*", features = ["derive"] }
