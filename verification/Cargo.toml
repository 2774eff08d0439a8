[package]
name = "rust_llm_utils"
version = "0.1.0"
edition = "2021"
publish = false

[dependencies]
dotenv = "0.15"
hyper = { version = "0.14", features = ["client", "http1", "tcp"] }
hyper-tls = "0.5"
lazy_static = "1"
serde = { version = "1", features = ["derive"] }
serde_json = "1"
