[package]
name = "roux"
version = "0.1.0"
edition = "2021"
publish = false

[dependencies]
html-escape = "0.2"
reqwest = { version = "0.12", default-features = false, features = ["json"] }
serde = { version = "1", features = ["derive"] }
serde_json = { version = "1", features = ["preserve_order"] }
tokio = { version = "1", features = ["sync", "time"] }

[dev-dependencies]
serde_urlencoded = "0.7"
