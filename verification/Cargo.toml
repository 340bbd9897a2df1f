[package]
name = "gantt"
version = "0.1.0"
edition = "2021"
publish = false

[dependencies]
rand = "0.8"
chrono = { version = "0.4", features = ["serde"] }
serde = { version = "1", features = ["derive"] }
json5 = "*"
clap = { version = "4", features = ["derive"] }
colored = "*"
