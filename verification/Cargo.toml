[package]
name = "rtwo"
version = "0.1.0"
edition = "2021"
publish = false

[dependencies]
anyhow = "*"
bat = { version = "*", default-features = false, features = ["regex-fancy"] }
chrono = "*"
clap = "*"
colored = "*"
dialoguer = "*"
directories = "*"
indicatif = "*"
reqwest = { version = "*", default-features = false, features = ["blocking"] }
rusqlite = { version = "*", features = ["bundled"] }
serde = { version = "*", features = ["derive"] }
serde_derive = "*"
serde_json = "*"
toml = "*"
