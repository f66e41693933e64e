[package]
name = "git_gui"
version = "0.1.0"
edition = "2021"
publish = false

[dependencies]
git2 = { version = "*", default-features = false }
serde = { version = "1", features = ["derive"] }
serde_json = "1"
notify = "*"
tauri = { version = "2", default-features = false }
