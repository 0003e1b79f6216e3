[package]
name = "commit_sync"
version = "0.1.0"
edition = "2021"
publish = false

[dependencies]
hex = "*"
openssl = "*"
rand = "*"
encoding = "*"
chrono = "*"
serde_json = "*"
reqwest = { version = "*", features = ["blocking", "json"] }
