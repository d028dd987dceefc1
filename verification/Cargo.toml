[package]
name = "weixin_agent"
version = "0.1.0"
edition = "2021"
publish = false

[dependencies]
aes = "0.8"
ecb = { version = "0.1", features = ["alloc"] }
cipher = { version = "0.4", features = ["alloc", "block-padding"] }
base64 = "0.22"
md-5 = "0.10"
rand = "0.9"
url = "2"
urlencoding = "2"
reqwest = { version = "0.12", default-features = false, features = ["json", "rustls-tls"] }
serde = { version = "1", features = ["derive"] }
serde_json = "1"
serde_repr = "0.1"
thiserror = "2"
tokio = { version = "1", features = ["full"] }
tokio-util = "0.7"
tracing = "0.1"
dashmap = "6"
async-trait = "0.1"
