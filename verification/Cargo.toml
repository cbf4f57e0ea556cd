[package]
name = "ipkbuilder"
version = "0.1.0"
edition = "2021"
publish = false

[dependencies]
anyhow = "=1.0.104"
eframe = { version = "=0.22.0", default-features = false, features = ["default_fonts", "glow"] }
env_logger = "=0.10.2"
flate2 = "=1.1.10"
log = "=0.4.34"
rfd = { version = "0.15", default-features = false, features = ["xdg-portal", "async-std"] }
tar = "=0.4.46"
