[package]
name = "rocket_git"
version = "0.1.0"
edition = "2021"
publish = false

[dependencies]
dirs = "*"
git2 = { version = "*", default-features = false }
log = "0.4"
notify = "*"
notify-debouncer-mini = "*"
serde = { version = "1", features = ["derive"] }
serde_json = "1"
thiserror = "*"
toml = "*"
which = "*"
