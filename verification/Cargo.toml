[package]
name = "smithy_core"
version = "0.1.0"
edition = "2021"
publish = false

[dependencies]
http = "0.2"
url = "2"
tokio = { version = "1", default-features = false, features = ["sync"] }
tempfile = "3"
anyhow = "1"
