[package]
name = "segment"
version = "0.1.0"
edition = "2021"
publish = false

[dependencies]
anyhow = "1"
clap = { version = "4", features = ["derive"] }
opencv = "0.88"
png = "0.17"
reqwest = "0.11"
serde = { version = "1", features = ["derive"] }
serde_json = "1"
serde_with = { version = "3", features = ["base64"] }
tokio = { version = "1", features = ["fs", "io-util", "macros", "rt-multi-thread"] }
