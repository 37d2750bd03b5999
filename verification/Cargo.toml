[package]
name = "rustapo"
version = "0.1.0"
edition = "2021"
publish = false

[dependencies]
rlua = "0.18"
log = "0.4"
actix-web = "4"
serde = { version = "1", features = ["derive"] }
serde_json = "1"
derive_more = "0.99"
env_logger = "0.10"
