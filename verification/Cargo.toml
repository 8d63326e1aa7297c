[package]
name = "buildinfo"
version = "0.1.0"
edition = "2021"
publish = false

[dependencies]
git2 = "*"
toml = "*"
serde_json = "*"
fast-xml = "*"
serde = { version = "*", features = ["derive"] }
clap = { version = "*", features = ["derive"] }
whoami = "*"
chrono = "*"
slurp = "*"
