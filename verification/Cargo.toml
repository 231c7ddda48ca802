[package]
name = "ronajo"
version = "0.1.0"
edition = "2021"
publish = false

[dependencies]
url = "2"
serde = { version = "1", features = ["derive"] }
serde_json = "1"
reqwest = { version = "0.12", features = ["blocking"] }
ssh2 = "0.9"
home = "0.5"
tokio = { version = "1", features = ["rt-multi-thread"] }
