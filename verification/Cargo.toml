[package]
name = "postmite"
version = "0.2.0"
edition = "2021"
publish = false

[dependencies]
uuid = "1"
sha2 = "0.10"
serde = { version = "1", features = ["derive"] }
serde_json = "1"
