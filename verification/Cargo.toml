[package]
name = "asset_server"
version = "0.1.0"
edition = "2021"
publish = false

[dependencies]
image = "0.24"
serde = { version = "1", features = ["derive"] }
actix-web = "4"
actix-cors = "*"
actix-files = "*"
actix-multipart = "*"
futures-util = "0.3"
