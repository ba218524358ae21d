[package]
name = "building_records"
version = "0.1.0"
edition = "2021"
publish = false

[dependencies]
uuid = { version = "*", features = ["v4"] }
chrono = "*"
libreauth = "*"
actix-web = "*"
listenfd = "*"
dotenv = "*"
serde = "*"
serde_derive = "*"
