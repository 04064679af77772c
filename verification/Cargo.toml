[package]
name = "simplersble"
version = "0.1.0"
edition = "2021"
publish = false

[dependencies]
tokio = { version = "1", default-features = false, features = ["sync"] }
tokio-stream = { version = "0.1", default-features = false, features = ["sync"] }
futures = { version = "0.3", default-features = false, features = ["std"] }
cxx = { version = "1" }
