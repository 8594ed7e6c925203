[package]
name = "agri_backend"
version = "0.1.0"
edition = "2021"
publish = false

[dependencies]
rand = "*"
actix-web = "*"
serde = { version = "*", features = ["derive"] }
env_logger = "*"
log = "*"
thiserror = "*"
