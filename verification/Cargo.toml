[package]
name = "agent_tools"
version = "0.1.0"
edition = "2021"
publish = false

[dependencies]
serde = { version = "1", features = ["derive"] }
serde_json = "1"
aws-smithy-types = "1"
aws-sdk-bedrockruntime = { version = "1", default-features = false }
