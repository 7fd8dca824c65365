[package]
name = "dr_downloader"
version = "0.1.0"
edition = "2021"
publish = false

[dependencies]
regex = "*"
reqwest = { version = "*", default-features = false, features = ["blocking"] }
serde_json = "*"
