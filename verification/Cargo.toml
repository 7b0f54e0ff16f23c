[package]
name = "ikarus"
version = "0.1.0"
edition = "2021"
publish = false

[dependencies]
wincode = { version = "=0.6.2", features = ["derive"] }
