[package]
name = "linchat"
version = "0.1.0"
edition = "2021"
publish = false

[dependencies]
async-graphql = { version = "=7.0.2", default-features = false }
bcs = "=0.1.6"
linera-base = { version = "=0.11.3", default-features = false }
linera-views = { version = "=0.11.3", default-features = false }
serde = { version = "=1.0.229", features = ["derive"] }
serde_json = "=1.0.154"
thiserror = "=1.0.69"
