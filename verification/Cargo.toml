[package]
name = "todo"
version = "0.3.0"
edition = "2021"
publish = false

[dependencies]
anyhow = "=1.0.104"
chrono = "=0.4.45"
colored = "=2.2.0"
polodb_core = "=4.4.2"
serde = { version = "=1.0.229", features = ["derive"] }
