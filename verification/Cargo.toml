[package]
name = "code_bridge_client"
version = "0.1.0"
edition = "2021"
publish = false

[dependencies]
futures-util = "0.3"
serde_json = "1"
thiserror = "1"
tokio = { version = "1", features = ["macros", "net", "rt-multi-thread", "time"] }
tokio-tungstenite = "0.20"
url = "2"
