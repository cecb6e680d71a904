[package]
name = "alpha_sync"
version = "0.1.0"
edition = "2021"
publish = false

[dependencies]
crc32fast = "*"
ring = "*"
chrono = "*"
csv = "*"
serde = { version = "*", features = ["derive"] }
serde_json = "*"
reqwest = { version = "*", default-features = false, features = ["blocking"] }
dotenvy = "*"
