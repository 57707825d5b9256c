[package]
name = "user_error"
version = "0.1.0"
edition = "2021"
publish = false

[dependencies]
colorful = "=0.3.2"
scrawl = "=1.1.0"
rusqlite = { version = "=0.40.2", features = ["bundled"] }
