[package]
name = "kickit"
version = "0.1.0"
edition = "2021"
publish = false

[dependencies]
ruzstd = "0.8"
nix = { version = "0.30", features = ["mount", "reboot", "signal", "sched", "user", "fs", "process"] }
tokio = { version = "1", features = ["full"] }
serde = { version = "1", features = ["derive"] }
toml = "0.8"
chrono = "0.4"
thiserror = "2"
derive_more = { version = "2", features = ["display"] }
