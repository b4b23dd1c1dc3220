[package]
name = "herdr_runner"
version = "0.1.0"
edition = "2021"
publish = false

[dependencies]
serde = { version = "1", features = ["derive"] }
serde_json = "1"
crossterm = { version = "0.28", default-features = false, features = ["events"] }
