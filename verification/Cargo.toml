[package]
name = "switch_layout"
version = "0.1.0"
edition = "2021"
publish = false

[dependencies]
directories = "6"
serde = { version = "1", features = ["derive"] }
toml = "0.9"
