[package]
name = "ecommerce_core"
version = "0.1.0"
edition = "2021"
publish = false

[dependencies]
chrono = "*"
serde = { version = "*", features = ["derive"] }
serde_json = "*"
rust_decimal = "*"
tokio = { version = "*", features = ["rt-multi-thread", "macros"] }
