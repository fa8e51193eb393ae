[package]
name = "gensource"
version = "0.1.0"
edition = "2021"
publish = false

[dependencies]
bytes = "1"
chrono = "0.4"
tokio = { version = "1", features = ["time", "rt", "macros"] }
futures = "0.3"
pin-project = "1"
