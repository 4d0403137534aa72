[package]
name = "mcp_client"
version = "0.1.0"
edition = "2021"
publish = false

[dependencies]
anyhow = "=1.0.104"
async-openai = "=0.27.2"
async-trait = "=0.1.92"
colored = "=2.2.0"
futures = "=0.3.34"
serde_json = { version = "=1.0.154", features = ["float_roundtrip"] }
tempfile = "=3.27.0"
tokio = { version = "=1.54.1", features = ["full"] }
tracing = "=0.1.44"
