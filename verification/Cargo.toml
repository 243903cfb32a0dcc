[package]
name = "gh_auditor"
version = "0.1.0"
edition = "2021"
publish = false

[dependencies]
hyperx = "*"
serde = { version = "*", features = ["derive"] }
serde_json = "*"
reqwest = { version = "*", default-features = false, features = ["blocking", "json"] }
clap = "*"
env_logger = "*"
log = "*"
