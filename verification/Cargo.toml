[package]
name = "aw_watcher_input"
version = "0.1.0"
edition = "2021"
publish = false

[dependencies]
aw-client-rust = "*"
aw-models = "*"
chrono = "*"
clap = { version = "*", features = ["derive"] }
config = "*"
ctrlc = "*"
dirs = "*"
hostname = "*"
rdev = "*"
serde = { version = "*", features = ["derive"] }
serde_json = "*"
toml = "*"
