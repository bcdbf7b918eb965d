[package]
name = "tenuo_rig"
version = "0.1.0"
edition = "2021"
publish = false

[dependencies]
anyhow = "=1.0.104"
futures = "=0.3.34"
hex = "=0.4.3"
rig = { version = "=0.42.0", default-features = false, features = ["agent"] }
rmcp = { version = "=3.8.0", default-features = false, features = ["base64", "client", "macros", "server", "transport-child-process", "transport-io"] }
schemars = "=1.2.3"
serde = { version = "=1.0.229", features = ["derive"] }
serde_json = "=1.0.154"
tenuo = { version = "=0.3.0", features = ["mcp-transport", "sdk"] }
tokio = { version = "=1.54.1", features = ["io-std", "macros", "process", "rt-multi-thread"] }
