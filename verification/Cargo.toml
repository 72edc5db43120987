[package]
name = "git_sumi"
version = "0.1.0"
edition = "2021"
publish = false

[dependencies]
regex = "*"
git-conventional = "*"
clap = { version = "*", features = ["derive", "env"] }
clap_complete = "*"
dirs = "*"
serde = { version = "*", features = ["derive"] }
serde_json = "*"
tabled = "*"
toml = "*"
log = "*"
env_logger = "*"
