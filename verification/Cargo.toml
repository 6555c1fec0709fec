[package]
name = "registry_auth"
version = "0.1.0"
edition = "2021"
publish = false

[dependencies]
constant_time_eq = "*"
serde = { version = "*", features = ["derive"] }
serde_json = "*"
reqwest = { version = "*", default-features = false, features = ["json"] }
rocket = "*"
