[package]
name = "upload_server"
version = "0.1.0"
edition = "2021"
publish = false

[dependencies]
actix-web = "4"
actix-multipart = "0.6"
futures = "0.3"
tokio = { version = "1", features = ["fs", "io-util"] }
local-ip-address = "*"
