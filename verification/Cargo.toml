[package]
name = "unii"
version = "0.1.0"
edition = "2021"
publish = false

[dependencies]
heck = "=0.5.0"
tera = "=1.20.1"
serde = { version = "=1.0.229", features = ["derive"] }
serde_json = "=1.0.151"
serde_yaml = "=0.9.34"
clap = { version = "=4.6.7", features = ["derive"] }
dirs = "=7.0.0"
