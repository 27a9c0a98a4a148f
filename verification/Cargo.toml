[package]
name = "request_core"
version = "0.1.0"
edition = "2021"
publish = false

[dependencies]
url = "2"
chrono = { version = "0.4", default-features = false, features = ["std", "alloc"] }
serde_json = "1"
http = "1"
bytes = "1"
