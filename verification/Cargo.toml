[package]
name = "permwatch"
version = "0.1.0"
edition = "2021"
publish = false

[dependencies]
inotify = "*"
nix = { version = "*", features = ["user"] }
serde = { version = "*", features = ["derive"] }
toml = "*"
