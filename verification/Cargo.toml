[package]
name = "netplan_types"
version = "0.1.0"
edition = "2021"
publish = false

[dependencies]
derive_builder = "*"
schemars = "*"
serde = { version = "1", features = ["derive"] }

[dev-dependencies]
serde_yaml = "0.9"
