[package]
name = "conn_pool"
version = "0.1.0"
edition = "2021"
publish = false

[dependencies]
futures = { version = "0.3", features = ["compat"] }
tokio-executor = "0.1"
