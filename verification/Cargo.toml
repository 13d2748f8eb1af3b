[package]
name = "hostprobe"
version = "0.1.0"
edition = "2021"
publish = false

[dependencies]
humantime = "2"
indicatif = "0.15"
rand = "0.7"
rayon = "1"
serde = { version = "1", features = ["derive"] }
serde_json = "1"
