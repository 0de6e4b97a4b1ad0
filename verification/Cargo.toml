[package]
name = "openmusic"
version = "0.1.0"
edition = "2021"
publish = false

[dependencies]
serde = { version = "*", features = ["derive"] }
serde_json = "*"
dirs = "*"
flate2 = "*"
tar = "*"
zip = { version = "*", default-features = false, features = ["deflate"] }
reqwest = { version = "*", default-features = false, features = ["blocking"] }
rodio = "*"
midir = "*"
