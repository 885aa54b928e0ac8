[package]
name = "nsg_cli"
version = "0.1.0"
edition = "2021"
publish = false

[dependencies]
quick-xml = "*"
reqwest = { version = "*", default-features = false, features = ["blocking", "multipart"] }
serde = { version = "*", features = ["derive"] }
serde_json = "*"
anyhow = "*"
chrono = "*"
clap = { version = "*", features = ["derive"] }
colored = "*"
dirs = "*"
indicatif = "*"
rpassword = "*"
