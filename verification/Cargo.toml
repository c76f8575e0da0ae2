[package]
name = "raptor_server"
version = "0.1.0"
edition = "2021"
publish = false

[dependencies]
jsonrpc-core = "=18.0.0"
jsonrpc-http-server = "=18.0.0"
serde_json = "=1.0.151"
