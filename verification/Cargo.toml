[package]
name = "spacegame"
version = "0.1.0"
edition = "2021"
publish = false

[dependencies]
rand = "=0.7.3"
serde = { version = "=1.0.229", features = ["derive"] }
serde_json = "=1.0.154"
thiserror = "=1.0.69"
glam = "=0.9.5"
hecs = "=0.2.15"
image = { version = "0.24", default-features = false, features = ["png"] }
