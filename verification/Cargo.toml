[package]
name = "adoboards"
version = "0.1.0"
edition = "2021"
publish = false

[dependencies]
html-escape = "=0.3.0"
anyhow = "=1.0.104"
azure_devops_rust_api = { version = "=0.39.1", features = ["core", "processes", "wit", "work"] }
azure_identity = "=1.0.0"
confy = "=2.0.0"
crossterm = "=0.29.0"
open = "=5.4.5"
ratatui = "=0.30.2"
serde = { version = "=1.0.229", features = ["derive"] }
serde_json = "=1.0.154"
tokio = { version = "=1.54.1", features = ["full"] }
