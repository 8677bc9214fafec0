[package]
name = "agent_bridge"
version = "0.1.0"
edition = "2021"
publish = false

[dependencies]
futures = "*"
serde_json = "*"
tokio = { version = "*", features = ["macros", "rt-multi-thread", "sync"] }
