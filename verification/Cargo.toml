[package]
name = "video_picker"
version = "0.1.0"
edition = "2021"
publish = false

[dependencies]
rand = "0.8"
actix-web = "4"
actix-files = "0.6"
serde = { version = "1", features = ["derive"] }
