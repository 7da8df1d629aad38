[package]
name = "whichkey"
version = "0.1.0"
edition = "2021"
publish = false

[dependencies]
clap = { version = "4", features = ["derive"] }
core-foundation = "0.9"
log = "0.4"
serde = { version = "1", features = ["derive"] }
simplelog = "0.12"
toml = "0.8"
