[package]
name = "maf_core"
version = "0.1.0"
edition = "2021"
publish = false

[dependencies]
anyhow = "=1.0.104"
axum = "=0.8.9"
base64 = "=0.22.1"
biscuit = "0.7"
colored = "=3.1.1"
facet = "=0.46.5"
lru-cache = "0.1"
rand = "=0.9.5"
serde = { version = "=1.0.229", features = ["derive"] }
serde_json = "=1.0.154"
sha2 = "=0.10.9"
thiserror = "=2.0.21"
toml = "=1.1.8"
uuid = { version = "=1.29.0", features = ["v4"] }
