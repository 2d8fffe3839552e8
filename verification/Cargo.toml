[package]
name = "passgen"
version = "0.1.0"
edition = "2021"
publish = false

[dependencies]
aes-gcm = "0.10"
arboard = { version = "3", default-features = false }
base64 = "0.22"
crossterm = "0.28"
dirs = "6"
rand = "0.9"
ratatui = "0.29"
serde = { version = "1", features = ["derive"] }
serde_json = "1"
