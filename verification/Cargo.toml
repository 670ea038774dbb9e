[package]
name = "handoffgg"
version = "0.1.0"
edition = "2021"
publish = false

[dependencies]
serde = { version = "1", features = ["derive"] }
serde_json = "1"
anyhow = "1"
parking_lot = "0.12"
hidapi = "2"
zbus = "5"
pipewire = "0.9"
