[package]
name = "onise"
version = "0.1.0"
edition = "2021"
publish = false

[dependencies]
base64 = "=0.13.1"
hmac = "=0.12.1"
sha2 = "=0.10.9"
reqwest = { version = "=0.13.5", default-features = false, features = ["json", "query", "form"] }
serde = { version = "*", features = ["derive"] }
serde_json = "*"
tokio = { version = "*", features = ["rt-multi-thread", "macros", "time", "sync", "net"] }
tokio-tungstenite = "*"
futures-util = "0.3"
dotenv = "0.15"
