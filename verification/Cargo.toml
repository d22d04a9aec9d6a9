[package]
name = "base_search"
version = "0.1.0"
edition = "2021"
publish = false

[dependencies]
xxhash-rust = { version = "=0.8.19", features = ["xxh3"] }
serde = { version = "=1.0.229", features = ["derive"] }
serde_json = "=1.0.154"
calamine = { version = "=0.38.0", features = ["dates"] }
chrono = "=0.4.45"
csv = "=1.4.0"
rust_xlsxwriter = "=0.102.0"
