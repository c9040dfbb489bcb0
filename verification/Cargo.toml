[package]
name = "cua-driver-ocr"
version = "0.1.0"
edition = "2021"
publish = false

[dependencies]
anyhow = "1"
serde_json = "1"
tokio = { version = "1", features = ["rt"] }
objc2 = "0.6"
objc2-foundation = "0.3"
objc2-vision = "0.3"
