[package]
name = "verso"
version = "0.1.0"
edition = "2021"
publish = false

[dependencies]
log = "*"
serde = { version = "*", features = ["derive"] }
euclid = "*"
gleam = "*"
webrender = "*"
webrender_api = "*"
ipc-channel = "*"
