[package]
name = "mcp_oauth"
version = "0.1.0"
edition = "2021"
publish = false

[dependencies]
url = "=2.5.8"
sha2 = "=0.10.9"
base64 = "=0.22.1"
serde_urlencoded = "=0.7.1"
serde_json = "=1.0.154"
nanoid = "=0.4.0"
serde = { version = "=1.0.229", features = ["derive"] }
anyhow = "=1.0.104"
tokio = { version = "=1.54.1", features = ["full"] }
axum = "=0.7.9"
reqwest = { version = "=0.12.28", default-features = false, features = ["json", "rustls-tls"] }
tracing = "=0.1.44"
webbrowser = "=1.2.5"
console = "=0.15.11"
indicatif = "=0.17.11"
cliclack = "=0.3.8"
etcetera = "=0.8.0"
bat = { version = "0.24", default-features = false, features = ["regex-fancy"] }
