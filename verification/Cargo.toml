[package]
name = "nanorpc"
version = "0.1.0"
edition = "2021"
publish = false

[dependencies]
anyhow = "1"
fastrand = "2"
serde = { version = "1", features = ["derive"] }
serde_json = "1"
smol = "2"
thiserror = "1"
