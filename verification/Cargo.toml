[package]
name = "transformator"
version = "0.1.0"
edition = "2021"
publish = false

[dependencies]
euclid = "*"
serde = { version = "*", features = ["derive"] }
