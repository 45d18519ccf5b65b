[package]
name = "terminal_one"
version = "0.1.0"
edition = "2021"
publish = false

[dependencies]
anyhow = "*"
dirs = "*"
dirs-next = "*"
notify-debouncer-mini = "*"
portable-pty = "*"
serde = { version = "*", features = ["derive"] }
serde_json = "*"
toml = "*"

[dev-dependencies]
tempfile = "*"
