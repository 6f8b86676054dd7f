[package]
name = "wled_sequencer"
version = "0.1.0"
edition = "2021"
publish = false

[dependencies]
zstd = "*"
tokio = { version = "*", features = ["rt-multi-thread", "macros", "sync", "time"] }
clap = { version = "*", features = ["derive"] }
anyhow = "*"
log = "*"
env_logger = "*"
ddp-rs = "*"
