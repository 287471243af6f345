[package]
name = "near_view_core"
version = "0.1.0"
edition = "2021"
publish = false

[dependencies]
serde_json = "*"
near-jsonrpc-client = "*"
near-jsonrpc-primitives = "*"
near-primitives = "*"
tokio = { version = "*", features = ["macros", "rt-multi-thread"] }
