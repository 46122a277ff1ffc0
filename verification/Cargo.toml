[package]
name = "docker_dns"
version = "0.1.0"
edition = "2021"
publish = false

[dependencies]
anyhow = "1"
async-trait = "0.1"
bollard = "0.18"
clap = { version = "4", features = ["derive"] }
env_logger = "0.11"
hickory-server = "0.24"
log = "0.4"
strip-prefix-suffix-sane = "*"
tokio = { version = "1", features = ["full"] }
