[package]
name = "pacseen"
version = "0.1.0"
edition = "2021"
publish = false

[dependencies]
alpm = "*"
color-eyre = "*"
crossterm = "*"
ratatui = "*"
reqwest = { version = "*", default-features = false, features = ["json", "rustls-tls"] }
serde = { version = "*", features = ["derive"] }
tokio = { version = "*", features = ["full"] }
