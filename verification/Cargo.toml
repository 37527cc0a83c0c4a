[package]
name = "powers_dict"
version = "0.1.0"
edition = "2021"
publish = false

[dependencies]
chrono = "*"
md5 = "*"
serde = { version = "*", features = ["derive"] }
serde_json = "*"
toml = "*"
