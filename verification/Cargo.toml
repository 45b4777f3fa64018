[package]
name = "down2earth"
version = "0.1.0"
edition = "2021"
publish = false

[dependencies]
image = { version = "=0.25.10", default-features = false, features = ["png"] }
serde_json = "=1.0.154"
reqwest = { version = "=0.12.28", features = ["blocking"] }
battery = "=0.7.8"
wallpaper = "=3.2.0"
clap = { version = "=4.6.7", features = ["derive"] }
env_logger = "=0.11.11"
log = "=0.4.34"
