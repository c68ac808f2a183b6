[package]
name = "agent_loop"
version = "0.1.0"
edition = "2021"
publish = false

[dependencies]
serde_json = "=1.0.151"
serde = { version = "=1.0.229", features = ["derive"] }
uuid = { version = "=1.27.0", features = ["v4"] }
dirs-next = "=2.0.0"
opener = "=0.9.0"
tracing = "=0.1.44"
async-openai = { version = "=0.42.1", features = ["chat-completion"] }
rust-mcp-sdk = "=2.0.0"
async-trait = "=0.1.92"
tokio = { version = "=1.53.2", features = ["rt-multi-thread", "macros"] }
tantivy = "=0.26.2"
jieba-rs = "=0.11.0"
