[package]
name = "challenge_deployer"
version = "0.1.0"
edition = "2021"
publish = false

[dependencies]
minijinja = "*"
tokio = { version = "*", features = ["full"] }
clap = { version = "*", features = ["derive"] }
