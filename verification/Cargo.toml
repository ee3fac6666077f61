[package]
name = "mcp-banking"
version = "1.0.1"
edition = "2021"
publish = false

[dependencies]
adk-mcp-sdk = "=0.2.0"
anyhow = "=1.0.104"
async-trait = "=0.1.92"
dotenvy = "=0.15.7"
reqwest = { version = "=0.13.5", features = ["json"] }
rmcp = { version = "=3.8.0", features = ["server", "macros", "transport-io"] }
serde = { version = "=1.0.229", features = ["derive"] }
serde_json = "=1.0.154"
tokio = { version = "=1.54.1", features = ["macros", "rt-multi-thread", "io-std"] }
tracing = "=0.1.44"
tracing-subscriber = { version = "=0.3.23", features = ["env-filter"] }
