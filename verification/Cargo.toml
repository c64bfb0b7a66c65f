[package]
name = "easyhdr"
version = "0.1.0"
edition = "2021"
publish = false

[dependencies]
uuid = { version = "1", features = ["v4"] }
image = { version = "0.25", default-features = false, features = ["png"] }
semver = "1"
serde = { version = "1", features = ["derive"] }
serde_json = "1"
tempfile = "3"
parking_lot = "0.12"
tracing = "0.1"
thiserror = "2"
anyhow = "1"
rayon = "1"
