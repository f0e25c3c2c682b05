[package]
name = "intel8080"
version = "0.1.0"
edition = "2021"
publish = false

[dependencies]
egui = { version = "0.27", default-features = false }
env_logger = { version = "0.11", default-features = false }
rodio = { version = "0.17", default-features = false, features = ["wav"] }
