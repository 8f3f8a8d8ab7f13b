[package]
name = "bulk_indexer"
version = "0.1.0"
edition = "2021"
publish = false

[dependencies]
crossbeam = "0.8"
serde_json = "1"
reqwest = { version = "0.11", default-features = false, features = ["blocking"] }
