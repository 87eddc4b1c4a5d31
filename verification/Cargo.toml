[package]
name = "libsql_db"
version = "0.1.0"
edition = "2021"
publish = false

[dependencies]
anyhow = "1"
async-trait = "0.1"
crossbeam = "0.8"
rusqlite = { version = "0.31", features = ["column_decltype"] }
tokio = { version = "1", features = ["rt", "rt-multi-thread", "sync", "time"] }
tracing = "0.1"
