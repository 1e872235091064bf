[package]
name = "mc-mcp"
version = "0.1.0"
edition = "2021"
publish = false

[dependencies]
comrak = { version = "*", default-features = false }
directories = "*"
figment = { version = "*", features = ["toml", "env"] }
serde = { version = "1", features = ["derive"] }
serde_json = "1"
walkdir = "2"
anyhow = "1"
log = "0.4"
env_logger = "*"
tokio = { version = "1", features = ["full"] }
rmcp = { version = "0.1", features = ["server", "transport-io", "macros"] }
qdrant-client = "1"
ureq = "2"
uuid = { version = "1", features = ["v4"] }
async-trait = "0.1"
futures = "0.3"

[dev-dependencies]
tempfile = "3"
