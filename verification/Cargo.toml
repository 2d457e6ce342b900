[package]
name = "helmer_micro"
version = "0.1.0"
edition = "2021"
publish = false

[dependencies]
cocoa = "0.25"
dotenv = "0.15.0"
objc = "0.2"
serde_json = "1.0"
tokio = { version = "1", features = ["sync"] }
