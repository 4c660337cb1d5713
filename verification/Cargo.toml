[package]
name = "acorn_zomes"
version = "0.1.0"
edition = "2021"
publish = false

[dependencies]
hdk = "=0.0.100"
rmp = "=0.8.10"
serde = { version = "=1.0.123", features = ["derive"] }
serde_json = "=1.0.99"
paste = "=1.0.3"
