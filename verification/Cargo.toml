[package]
name = "anzen2"
version = "0.1.0"
edition = "2021"
publish = false

[dependencies]
actix = "=0.13.5"
actix-http = { version = "=3.19.0", features = ["ws"] }
actix-web = { version = "=4.18.1", default-features = false, features = ["macros", "ws"] }
actix-web-actors = "=4.3.1"
base64 = "=0.13.1"
bytes = "=1.12.1"
derive_more = "=0.99.20"
env_logger = "=0.10.2"
ipnetwork = "=0.20.0"
log = "=0.4.34"
num_cpus = "=1.17.0"
rand = "=0.8.8"
serde = { version = "=1.0.229", features = ["derive"] }
serde_json = "=1.0.154"
