[package]
name = "linux_toolbox"
version = "0.6.7"
edition = "2021"
publish = false

[dependencies]
chrono = "0.4"
crossterm = "0.27"
rand = "0.8"
ratatui = "0.23"
reqwest = { version = "0.11", features = ["blocking", "json"] }
semver = "1"
serde = { version = "1", features = ["derive"] }
serde_json = "1"
sysinfo = "0.29"
toml = { version = "0.8", features = ["preserve_order"] }
