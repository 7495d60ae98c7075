[package]
name = "lsp_types"
version = "0.1.0"
edition = "2021"
publish = false

[dependencies]
base64 = "0.12"
fluent-uri = "0.1"
serde = { version = "1", features = ["derive"] }
serde_json = { version = "1", features = ["preserve_order"] }
url = "2"
