[package]
name = "gremlin_client"
version = "0.1.0"
edition = "2021"
publish = false

[dependencies]
async-tungstenite = "*"
futures = "*"
