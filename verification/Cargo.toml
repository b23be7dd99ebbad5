[package]
name = "mockplane"
version = "0.1.0"
edition = "2021"
publish = false

[dependencies]
serde = { version = "*", features = ["derive"] }
tokio = { version = "*", features = ["full"] }
reqwest = { version = "*", default-features = false, features = ["multipart"] }
git2 = { version = "*", default-features = false }
