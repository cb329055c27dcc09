[package]
name = "sozuconfw"
version = "0.1.0"
edition = "2021"
publish = false

[dependencies]
rand = "*"
sozu-command-lib = "=0.8.0"
toml = "*"
serde = { version = "*", features = ["derive"] }
serde_json = "*"
notify = "4"
clap = "*"
log = "*"
pretty_env_logger = "*"
