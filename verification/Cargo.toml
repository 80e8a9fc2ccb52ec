[package]
name = "nes"
version = "0.1.0"
edition = "2021"
publish = false

[dependencies]
clap = { version = "4", features = ["derive"] }
serde = { version = "1", features = ["derive"] }
serde_json = "1"
dirs = "5"
zip = { version = "2", default-features = false, features = ["deflate"] }
walkdir = "2"
rayon = "1"
