[package]
name = "pg_collect"
version = "0.1.0"
edition = "2021"
publish = false

[dependencies]
chrono = { version = "0.4", default-features = false, features = ["clock", "std", "alloc"] }
flate2 = "1"
hmac = "0.12"
percent-encoding = "2"
quick-xml = "0.37"
regex = "1"
reqwest = { version = "0.12", default-features = false, features = ["blocking", "json"] }
serde = { version = "1", features = ["derive"] }
serde_json = "1"
sha2 = "0.10"
tar = { version = "0.4", default-features = false }
