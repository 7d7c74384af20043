[package]
name = "hyprshell"
version = "0.1.0"
edition = "2021"
publish = false

[dependencies]
chrono = { version = "0.4", default-features = false, features = ["std", "clock"] }
serde = { version = "1", features = ["derive"] }
serde_json = "1"
toml = "*"
ron = "*"
toml_edit = "*"
anyhow = "1"
regex = "1"
inotify = "*"
