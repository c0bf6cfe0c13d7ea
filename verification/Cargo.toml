[package]
name = "midi_mediation"
version = "0.1.0"
edition = "2021"
publish = false

[dependencies]
tether-agent = "*"
rmp-serde = "*"
midi-msg = "*"
midir = "*"
clap = { version = "*", features = ["derive"] }
serde = { version = "*", features = ["derive"] }
serde_json = "*"
log = "*"
env_logger = "*"
anyhow = "*"
