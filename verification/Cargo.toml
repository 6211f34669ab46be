[package]
name = "taskbook"
version = "0.1.0"
edition = "2021"
publish = false

[dependencies]
argparse = "0.2"
chrono = { version = "0.4", features = ["serde"] }
colored = "2"
rand = "0.8"
serde = { version = "1", features = ["derive"] }
serde_json = "1"
