[package]
name = "player_core"
version = "0.1.0"
edition = "2021"
publish = false

[dependencies]
rand = "=0.9.5"
serde = { version = "=1.0.229", features = ["derive"] }
serde_json = "=1.0.154"
toml = "=1.1.8"
dirs-next = "=2.0.0"
lofty = "=0.25.5"
walkdir = "=2.5.0"
infer = "=0.22.0"
image = "*"
