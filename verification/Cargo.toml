[package]
name = "batch_transcode"
version = "0.1.0"
edition = "2021"
publish = false

[dependencies]
image = "0.25"
webp = "0.3"
serde = { version = "1", features = ["derive"] }
dirs = "*"
