[package]
name = "cxtools"
version = "0.1.0"
edition = "2021"
publish = false

[dependencies]
base64 = "*"
rmcp = { version = "*", features = ["server", "macros", "transport-io"] }
tokio = { version = "*", features = ["full"] }
serde = { version = "*", features = ["derive"] }
serde_json = "*"
schemars = "*"
anyhow = "*"
codex-protocol = "*"
