[package]
name = "nofus"
version = "0.1.0"
edition = "2021"
publish = false

[dependencies]
clap = { version = "*", features = ["derive"] }
env_logger = "*"
inotify = "*"
log = "*"
proc-mounts = "*"
serde = { version = "*", features = ["derive"] }
serde_yml = "*"
