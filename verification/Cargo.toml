[package]
name = "item_repository"
version = "0.1.0"
edition = "2021"
publish = false

[dependencies]
bson = "2"
mongodb = "3"
tracing = { version = "0.1", features = ["log"] }
