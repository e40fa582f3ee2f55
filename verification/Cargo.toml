[package]
name = "casper_client"
version = "0.1.0"
edition = "2021"
publish = false

[dependencies]
serde = { version = "1", features = ["derive"] }
serde_json = "1"
url = "2"
thiserror = "1"
tokio = { version = "1", features = ["rt-multi-thread", "sync", "macros", "time"] }
tokio-stream = "0.1"
tonic = "0.12"
prost = "0.13"
reqwest = { version = "0.12", default-features = false, features = ["json"] }
