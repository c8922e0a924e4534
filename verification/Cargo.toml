[package]
name = "zkos_hooks"
version = "0.1.0"
edition = "2021"
publish = false

[dependencies]
revm = { version = "*", default-features = false, features = ["std", "serde"] }
serde = { version = "1", features = ["derive"] }
