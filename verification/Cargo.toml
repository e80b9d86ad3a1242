[package]
name = "catdex"
version = "0.1.0"
edition = "2021"
publish = false

[dependencies]
actix-files = "0.6"
actix-web = { version = "4", features = ["openssl"] }
awmp = "0.8"
diesel = { version = "2", features = ["postgres", "r2d2"] }
env_logger = "0.11"
log = "0.4"
openssl = "0.10"
r2d2 = "0.8"
serde = { version = "1", features = ["derive"] }
