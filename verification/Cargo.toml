[package]
name = "itp_tldr"
version = "0.1.0"
edition = "2021"
publish = false

[dependencies]
crossterm = "0.19"
dirs = "3"
rusqlite = "0.24"
serde = { version = "1", features = ["derive"] }
structopt = "0.3"
toml = "0.5"
tui = { version = "0.15", default-features = false, features = ["crossterm"] }
