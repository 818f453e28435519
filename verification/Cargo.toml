[package]
name = "hypriio"
version = "0.1.0"
edition = "2021"
publish = false

[dependencies]
serde = { version = "*", features = ["derive"] }
serde_json = "*"
toml = "*"
tokio = { version = "*", features = ["full"] }
zbus = { version = "*", default-features = false, features = ["tokio"] }
futures-lite = "*"
