[package]
name = "command_proxy"
version = "0.1.0"
edition = "2021"
publish = false

[dependencies]
actix-rt = "2"
actix-settings = "*"
actix-web = "4"
actix-web-httpauth = "*"
log = "0.4"
log4rs = "1"
serde = { version = "1", features = ["derive"] }
toml = "0.8"
