[package]
name = "durable_rewrite"
version = "0.1.0"
edition = "2021"
publish = false

[dependencies]
serde = { version = "=1.0.229", features = ["derive"] }
serde_json = "=1.0.151"
swc_core = { version = "=82.0.0", features = ["common", "ecma_ast"] }
