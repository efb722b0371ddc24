[package]
name = "qmkonnect"
version = "0.1.0"
edition = "2021"
publish = false

[dependencies]
ctrlc = "=3.5.2"
dirs = "=7.0.0"
toml = "=0.9.8"
serde = { version = "=1.0.229", features = ["derive"] }
