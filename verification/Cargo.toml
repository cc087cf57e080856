[package]
name = "ir_handles"
version = "0.1.0"
edition = "2021"
publish = false

[dependencies]
anyhow = "1"
clap = { version = "4", features = ["derive"] }
env_logger = "0.10"
glob = "0.3"
log = "0.4"
nanoserde = "0.1"
thiserror = "1"
