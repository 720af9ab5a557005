[package]
name = "text_to_3dgs"
version = "0.1.0"
edition = "2021"
publish = false

[dependencies]
color-eyre = "*"
glob = "*"
image = "*"
reqwest = { version = "*", default-features = false, features = ["rustls-tls", "json", "multipart", "stream"] }
serde = { version = "*", features = ["derive"] }
serde_json = "*"
tokio = { version = "*", features = ["full"] }
tokio-util = { version = "*", features = ["codec"] }
video-rs = "*"
