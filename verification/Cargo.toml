[package]
name = "cbshell"
version = "0.1.0"
edition = "2021"
publish = false

[dependencies]
couchbase = "*"
futures = "*"
reqwest = { version = "*", default-features = false }
serde = "*"
serde_json = "*"
