[package]
name = "tracksync"
version = "0.1.0"
edition = "2021"
publish = false

[dependencies]
futures-util = "=0.3.34"
image = "=0.25.10"
lofty = "=0.22.4"
reqwest = { version = "=0.13.5", features = ["stream"] }
serde = { version = "=1.0.229", features = ["derive"] }
serde_json = "=1.0.154"
tokio = { version = "=1.54.1", features = ["fs", "io-util"] }
