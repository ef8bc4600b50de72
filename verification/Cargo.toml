[package]
name = "codex_acp"
version = "0.1.0"
edition = "2021"
publish = false

[dependencies]
agent-client-protocol = { version = "=0.15.1", features = ["unstable"] }
codex-protocol = "=0.63.0"
serde = { version = "=1.0.229", features = ["derive"] }
serde_json = "=1.0.154"
tracing = "=0.1.44"
unicode-segmentation = "=1.13.3"
