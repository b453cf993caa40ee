[package]
name = "flutter_rust_bridge"
version = "0.1.0"
edition = "2021"
publish = false

[dependencies]
anyhow = "1"
clap = { version = "4", features = ["derive"] }
futures-util = "0.3"
itertools = "0.10"
log = "0.4"
once_cell = "1"
pathdiff = "0.2"
tempfile = "3"
tokio = { version = "1", features = ["rt-multi-thread"] }
