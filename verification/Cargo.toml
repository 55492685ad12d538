[package]
name = "acp"
version = "0.1.0"
edition = "2021"
publish = false

[dependencies]
agent-client-protocol-schema = "=1.1.0"
anyhow = "=1.0.104"
async-channel = "=2.5.0"
async-fs = "=2.2.0"
async-process = "=2.5.0"
async-stream = "=0.3.6"
async-trait = "=0.1.92"
futures = "=0.3.34"
log = "=0.4.35"
nix = { version = "=0.31.3", features = ["signal"] }
serde = { version = "=1.0.229", features = ["derive"] }
serde_json = "=1.0.154"
uuid = { version = "1", features = ["v4"] }
