[package]
name = "mcp_server_digitalocean"
version = "0.1.0"
edition = "2021"
publish = false

[dependencies]
zed_extension_api = "*"
serde = { version = "1", features = ["derive"] }
schemars = "0.8"
