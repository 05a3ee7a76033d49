[package]
name = "sortest_path"
version = "0.1.0"
edition = "2021"
publish = false

[dependencies]
actix-web = "*"
chrono = "*"
lazy_static = "*"
log = "*"
serde = { version = "*", features = ["derive"] }
serde_json = "*"
