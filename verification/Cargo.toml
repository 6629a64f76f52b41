[package]
name = "bibliotheque"
version = "0.1.0"
edition = "2021"
publish = false

[dependencies]
tui-input = { version = "0.11", default-features = false }
crossterm = "0.28"
ratatui = "0.29"
serde = { version = "1", features = ["derive"] }
serde_json = "1"
cursive = { version = "0.21", default-features = false, features = ["crossterm-backend"] }
