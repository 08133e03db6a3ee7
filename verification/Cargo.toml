[package]
name = "interprocess_converse"
version = "0.1.0"
edition = "2021"
publish = false

[dependencies]
async-io-converse = "=1.0.2"
bincode = "=1.3.3"
futures-util = "=0.3.34"
interprocess = { version = "=1.2.1", features = ["tokio_support"] }
serde = { version = "=1.0.229", features = ["derive"] }
tempfile = "=3.27.0"
tokio = { version = "=1.54.1", features = ["full"] }
uuid = { version = "=1.29.0", features = ["v4"] }
