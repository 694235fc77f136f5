[package]
name = "stourney"
version = "0.1.15"
edition = "2021"
publish = false

[dependencies]
clap = { version = "4", features = ["derive"] }
clap-verbosity-flag = "*"
confy = "*"
dialoguer = "*"
env_logger = "*"
log = "0.4"
serde = { version = "1", features = ["derive"] }
splendor_arena = "*"
