[package]
name = "mail_filters"
version = "0.1.0"
edition = "2021"
publish = false

[dependencies]
aho-corasick = "*"
serde = { version = "*", features = ["derive"] }
toml = "*"
clap = { version = "*", features = ["derive"] }
