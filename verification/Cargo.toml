[package]
name = "rune"
version = "0.1.0"
edition = "2021"
publish = false

[dependencies]
anyhow = "1"
clap = { version = "4", features = ["derive"] }
num = "0.4"
serde_json = "1"
similar = { version = "2", features = ["inline"] }
