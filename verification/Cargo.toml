[package]
name = "ads1115"
version = "0.1.0"
edition = "2021"
publish = false

[dependencies]
rppal = "*"
serde = { version = "1", features = ["derive"] }
