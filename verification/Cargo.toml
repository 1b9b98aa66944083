[package]
name = "renamite"
version = "0.1.0"
edition = "2021"
publish = false

[dependencies]
ttf-parser = { version = "=0.25.1", default-features = false, features = ["std"] }
kurbo = "=0.13.1"
image = { version = "=0.25.10", default-features = false, features = ["png", "jpeg", "webp"] }
serde_json = "=1.0.154"
slotmap = "=1.1.1"
anyhow = "=1.0.104"
thiserror = "=2.0.21"
log = "=0.4.35"
serde = { version = "=1.0.229", features = ["derive"] }
glam = "=0.34.2"
