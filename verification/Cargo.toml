[package]
name = "jobtrack"
version = "0.1.0"
edition = "2021"
publish = false

[dependencies]
anyhow = "*"
clap = { version = "*", features = ["derive"] }
csv = "*"
directories = "*"
inquire = "*"
open = "*"
ratatui = "*"
serde = { version = "*", features = ["derive"] }
serde_json = "*"
serde_path_to_error = "*"
serde_with = "*"
time = { version = "*", features = ["serde", "formatting", "parsing", "local-offset", "macros"] }
yansi = "*"
