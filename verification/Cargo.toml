[package]
name = "weaver"
version = "0.1.0"
edition = "2021"
publish = false

[dependencies]
inflections = "1"
clap = "2"
walkdir = "2"
chrono = { version = "0.4", default-features = false, features = ["clock"] }
serde = { version = "1", features = ["derive"] }
serde_json = "1"
cursive = { version = "0.11", default-features = false }
