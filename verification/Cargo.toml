[package]
name = "actix_errbit"
version = "0.1.0"
edition = "2021"
publish = false

[dependencies]
actix-service = "2"
actix-utils = "3"
actix-web = { version = "4", default-features = false }
anyhow = "1"
