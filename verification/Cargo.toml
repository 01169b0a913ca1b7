[package]
name = "classic_to_js"
version = "0.1.0"
edition = "2021"
publish = false

[dependencies]
mc-classic = "*"
mc-classic-js = "*"
rusqlite = { version = "*", features = ["bundled"] }
serde = { version = "*", features = ["derive"] }
thiserror = "*"
toml = "*"
