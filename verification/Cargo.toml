[package]
name = "rauth"
version = "0.1.0"
edition = "2021"
publish = false

[dependencies]
rand = "0.8"
libreauth = { version = "*", default-features = false, features = ["oath"] }
sha2 = "0.10"
base64 = "0.13"
dotenv = "0.15"
