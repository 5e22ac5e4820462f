[package]
name = "outbound"
version = "0.1.0"
edition = "2021"
publish = false

[dependencies]
base64 = "0.22"
open = "5"
reqwest = { version = "0.12", default-features = false, features = ["json", "multipart"] }
serde = { version = "1", features = ["derive"] }
serde_json = "1"
tokio = { version = "1", features = ["io-util", "net", "rt", "time"] }
