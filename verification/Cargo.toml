[package]
name = "env_editor"
version = "0.3.0"
edition = "2021"
publish = false

[dependencies]
rand = "0.8"
rfd = { version = "0.15", default-features = false, features = ["xdg-portal", "tokio"] }
russh = "*"
russh-sftp = "*"
tokio = { version = "1", features = ["rt", "io-util"] }
serde = { version = "1", features = ["derive"] }
serde_json = "1"
keyring = { version = "3", features = ["linux-native"] }
dirs = "*"
