[package]
name = "teamlens-agent"
version = "0.1.0"
edition = "2021"
publish = false

[dependencies]
image = { version = "0.25", default-features = false, features = ["png", "jpeg"] }
open = "5"
serde_json = "1"
