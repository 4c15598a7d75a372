[package]
name = "music_shell"
version = "0.1.0"
edition = "2021"
publish = false

[dependencies]
base64 = "*"
crossterm = "*"
ratatui = "*"
reqwest = { version = "*", default-features = false, features = ["json"] }
serde = { version = "*", features = ["derive"] }
tokio = { version = "*", features = ["rt-multi-thread", "macros"] }
dotenv = "*"
