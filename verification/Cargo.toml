[package]
name = "fisco_bcos_service"
version = "0.1.0"
edition = "2021"
publish = false

[dependencies]
hex = "0.4"
serde_json = "1"
tokio = { version = "1", features = ["time"] }
ethabi = "18"
