[package]
name = "ssrender"
version = "0.1.0"
edition = "2021"
publish = false

[dependencies]
anyhow = "1"
salvo = { version = "1", features = ["anyhow", "serve-static"] }
serde_json = "1"
tera = "1"
tokio = { version = "1", features = ["rt-multi-thread"] }
