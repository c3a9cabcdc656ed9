[package]
name = "adventure"
version = "0.1.0"
edition = "2021"
publish = false

[dependencies]
rand = "0.7"
log = "0.4"
clap = "2"
serde = { version = "1", features = ["derive"] }
serde_json = "1"
