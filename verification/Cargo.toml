[package]
name = "gpt_client"
version = "0.1.0"
edition = "2021"
publish = false

[dependencies]
serde_json = "1"
minreq = { version = "2", features = ["https"] }
bat = { version = "*", default-features = false, features = ["regex-fancy"] }
copypasta-ext = "*"
