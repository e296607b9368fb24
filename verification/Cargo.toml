[package]
name = "omcp"
version = "0.1.0"
edition = "2021"
publish = false

[dependencies]
regex = "=1.13.1"
terminal_size = "=0.4.4"
serde = { version = "=1.0.229", features = ["derive"] }
serde_json = "=1.0.151"
clap = { version = "=4.6.7", features = ["derive"] }
tokio = { version = "=1.53.2", features = ["full"] }
tokio-stream = "=0.1.19"
crossterm = "=0.29.0"
dirs = "=7.0.0"
schemars = "=1.2.2"
ollama-rs = { version = "=0.3.6", features = ["stream"] }
rmcp = { version = "=3.5.1", features = ["client", "transport-child-process", "transport-streamable-http-client-reqwest"] }
reqwest = "=0.13.5"
