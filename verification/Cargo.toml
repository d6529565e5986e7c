[package]
name = "hermione_terminal"
version = "0.1.0"
edition = "2021"
publish = false

[dependencies]
anyhow = "1"
clap = { version = "4", features = ["derive"] }
ratatui = "0.29"
serde_json = "1"
uuid = "1"
