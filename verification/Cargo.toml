[package]
name = "temple_stats"
version = "0.1.0"
edition = "2021"
publish = false

[dependencies]
anyhow = "1"
chrono = { version = "0.4", default-features = false, features = ["std"] }
crossterm = "0.27"
num-format = "0.4"
ratatui = "0.23"
reqwest = { version = "0.11", features = ["blocking", "json"] }
serde = { version = "1", features = ["derive"] }
serde_repr = "0.1"
serde_with = "3"
