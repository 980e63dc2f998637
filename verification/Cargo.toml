[package]
name = "solhat_ui"
version = "0.1.0"
edition = "2021"
publish = false

[dependencies]
anyhow = "1"
charts = "0.3"
dirs = "*"
gtk4 = { version = "0.7", features = ["v4_10"] }
itertools = "*"
lazy_static = "1"
sciimg = "*"
serde = { version = "1", features = ["derive"] }
stump = "*"
tokio = { version = "1", features = ["full"] }
toml = "0.8"
