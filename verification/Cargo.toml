[package]
name = "mage"
version = "0.1.0"
edition = "2021"
publish = false

[dependencies]
toml = { version = "0.8", features = ["preserve_order"] }
anyhow = "1"
clap = { version = "4", features = ["derive"] }
indicatif = "0.17"
rayon = "1"
tracing = "0.1"
tracing-subscriber = "0.3"
