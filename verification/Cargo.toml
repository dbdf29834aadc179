[package]
name = "website"
version = "0.1.0"
edition = "2021"
publish = false

[dependencies]
actix-web = "=4.18.1"
actix-files = "=0.6.10"
handlebars = { version = "=5.1.2", features = ["dir_source"] }
rusqlite = { version = "=0.32.1", features = ["bundled"] }
serde = { version = "=1.0.229", features = ["derive"] }
env_logger = "=0.11.11"
