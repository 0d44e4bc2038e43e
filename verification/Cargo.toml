[package]
name = "colpetto"
version = "0.1.0"
edition = "2021"
publish = false

[dependencies]
devil = "*"
futures-core = "0.3"
thiserror = "1"
tokio = { version = "1", features = ["net", "rt", "sync", "macros"] }
tokio-stream = "0.1"
