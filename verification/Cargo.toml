[package]
name = "audible_provider"
version = "0.1.0"
edition = "2021"
publish = false

[dependencies]
itertools = "*"
serde = { version = "*", features = ["derive"] }
async-trait = "*"
anyhow = "*"
surf = "*"
