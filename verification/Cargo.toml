[package]
name = "typefast"
version = "0.1.0"
edition = "2021"
publish = false

[dependencies]
chrono = "0.4"
crossterm = "*"
dirs = "*"
rand = "0.8"
ratatui = "*"
rusqlite = { version = "*", features = ["bundled"] }
