[package]
name = "daoyi_config"
version = "0.1.0"
edition = "2021"
publish = false

[dependencies]
serde = "*"
serde_json = "*"
serde_yaml = "*"
config = { version = "*", default-features = false, features = ["yaml", "toml"] }
nacos-sdk = "*"
tokio = { version = "*", default-features = false, features = ["rt-multi-thread", "macros"] }
tracing = "*"
argon2 = "*"
rand = "*"
