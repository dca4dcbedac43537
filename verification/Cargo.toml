[package]
name = "smart_ledger"
version = "0.1.0"
edition = "2021"
publish = false

[dependencies]
rusqlite = "*"
reqwest = { version = "*", default-features = false }
serde = { version = "1", features = ["derive"] }
serde_json = "1"
thiserror = "*"
chrono = "0.4"
jni = "0.21"
