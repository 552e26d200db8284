[package]
name = "vsh"
version = "0.1.0"
edition = "2021"
publish = false

[dependencies]
anyhow = "1"
clap = { version = "4", features = ["derive"] }
colored = "2"
dirs = "5"
rustyline = "*"
serde = { version = "1", features = ["derive"] }
thiserror = "1"
toml = "*"
whoami = "1.5"
