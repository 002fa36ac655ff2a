[package]
name = "dolph_cli"
version = "0.1.0"
edition = "2021"
publish = false

[dependencies]
glob = "*"
clap = "*"
ctrlc = "*"
dialoguer = "*"
notify = "*"
serde = { version = "*", features = ["derive"] }
serde_json = "*"
serde_yaml = "*"
signal-hook = "*"
slog = "*"
slog-async = "*"
slog-term = "*"
tokio = { version = "*", features = ["macros", "rt-multi-thread", "process"] }
