[package]
name = "explore_ir"
version = "0.1.0"
edition = "2021"
publish = false

[dependencies]
ratatui = { version = "0.27", default-features = false, features = ["crossterm"] }
serde = { version = "1", features = ["derive"] }
serde_json = "1"
