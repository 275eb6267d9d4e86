[package]
name = "rayhunter"
version = "0.1.0"
edition = "2021"
publish = false

[dependencies]
anyhow = "1"
async-trait = "0.1"
chrono = "0.4"
log = "0.4"
thiserror = "2"
tokio = { version = "1", features = ["fs", "sync", "time", "macros", "rt"] }
tokio-util = { version = "0.7", features = ["rt"] }
