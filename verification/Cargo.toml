[package]
name = "aykroyd"
version = "0.1.0"
edition = "2021"
publish = false

[dependencies]
async-sqlite = "*"
rusqlite = "*"
turso = "*"
turso_core = "*"

[dev-dependencies]
futures = "*"
tokio = { version = "1", features = ["rt", "rt-multi-thread", "time", "sync", "macros"] }
