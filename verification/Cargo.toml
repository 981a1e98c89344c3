[package]
name = "motion_guard"
version = "0.1.0"
edition = "2021"
publish = false

[dependencies]
chrono = "*"
reqwest = { version = "*", default-features = false, features = ["json"] }
tokio = { version = "*", features = ["rt-multi-thread", "macros", "time", "sync", "signal"] }
serde = { version = "*", features = ["derive"] }
anyhow = "*"
log = "*"
env_logger = "*"
