[package]
name = "chat_config"
version = "0.1.0"
edition = "2021"
publish = false

[dependencies]
anyhow = "1"
bincode = "1.3"
dirs = "5"
inquire = "0.6"
is-terminal = "0.4"
parking_lot = "0.12"
serde = { version = "1", features = ["derive"] }
serde_json = "1"
serde_yaml = "0.9"
syntect = { version = "5", default-features = false, features = ["parsing", "regex-fancy", "plist-load"] }
