[package]
name = "flash_cli"
version = "0.1.0"
edition = "2021"
publish = false

[dependencies]
clap = "*"
duct = "*"
reqwest = { version = "*", default-features = false, features = ["blocking", "json"] }
serde = { version = "*", features = ["derive"] }
