[package]
name = "unraid_mcp"
version = "0.2.3"
edition = "2021"
publish = false

[dependencies]
reqwest = { version = "0.12", default-features = false, features = ["json", "rustls-tls"] }
serde = { version = "1", features = ["derive"] }
serde_json = "1"
anyhow = "1"
thiserror = "2"
tracing = "0.1"
cynic = "3"
tokio = { version = "1", features = ["macros", "rt-multi-thread"] }
