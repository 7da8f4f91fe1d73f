[package]
name = "workspace_opener"
version = "0.1.0"
edition = "2021"
publish = false

[dependencies]
serde = { version = "1", features = ["derive"] }
serde_json = "1"
log = "0.4"
simplelog = "0.12"
crossterm = "0.25"
tui = "0.19"
cli-clipboard = "0.4"
