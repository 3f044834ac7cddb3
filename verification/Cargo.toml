[package]
name = "axum_serde_valid"
version = "0.1.0"
edition = "2021"
publish = false

[dependencies]
axum = "*"
serde = "*"
serde_valid = "*"
