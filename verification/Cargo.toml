[package]
name = "object_census"
version = "0.1.0"
edition = "2021"
publish = false

[dependencies]
flate2 = "*"
git2 = { version = "*", default-features = false }
walkdir = "*"
log = "*"
env_logger = "*"
gumdrop = "*"
