[package]
name = "client_rs"
version = "0.1.0"
edition = "2021"
publish = false

[dependencies]
confy = "*"
crossbeam-channel = "*"
sdl2 = "*"
serde = { version = "*", features = ["derive"] }
