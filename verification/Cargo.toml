[package]
name = "edi_amend"
version = "0.1.0"
edition = "2021"
publish = false

[dependencies]
chrono = "*"
nanoid = "*"
regex = "*"
clap = { version = "*", features = ["derive"] }
csv = "*"
oxhttp = "*"
serde = { version = "*", features = ["derive"] }
serde_json = "*"
toml = "*"
