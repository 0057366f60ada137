[package]
name = "dev_cli"
version = "0.1.0"
edition = "2021"
publish = false

[dependencies]
git2 = "*"
walkdir = "*"
serde = { version = "*", features = ["derive"] }
serde_json = "*"
toml = "*"
serde_yaml = "*"
anyhow = "*"
clap = { version = "*", features = ["derive"] }
clap-verbosity-flag = "*"
log = "*"
env_logger = "*"
dirs = "*"
thiserror = "*"
tokio = { version = "*", features = ["rt-multi-thread", "macros"] }
async-trait = "*"
reqwest = { version = "*", default-features = false, features = ["json"] }
