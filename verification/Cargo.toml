[package]
name = "atem_rs"
version = "0.1.0"
edition = "2021"
publish = false

[dependencies]
bitflags = "2"
bytes = "1"
thiserror = "1"
tokio = { version = "1", features = ["net", "rt", "sync"] }
tracing = "0.1"
