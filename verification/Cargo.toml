[package]
name = "rust_api_client"
version = "0.1.0"
edition = "2021"
publish = false

[dependencies]
serde_json = "1"
ureq = { version = "2", default-features = false }

[dev-dependencies]
httpmock = "0.7"
