[package]
name = "mcp_gateway"
version = "0.1.0"
edition = "2021"
publish = false

[dependencies]
arc-swap = "=1.9.3"
async-trait = "=0.1.92"
bytes = "=1.12.1"
clap = { version = "=4.6.7", features = ["derive"] }
http = "=1.5.0"
pingora = { version = "=0.8.1", features = ["proxy"] }
regex = "=1.13.1"
rmcp = { version = "=1.8.0", features = ["client", "transport-streamable-http-client-reqwest"] }
rust-mcp-sdk = { version = "=1.1.0", default-features = false, features = ["client", "server", "sse"] }
rustc-hash = "=2.1.3"
serde = { version = "=1.0.229", features = ["derive"] }
serde_json = "=1.0.154"
tokio = { version = "=1.54.1", features = ["full"] }
toml = "=1.1.8"
