[package]
name = "jsonrpc-v2"
version = "0.11.0"
edition = "2021"
publish = false

[dependencies]
async-trait = "0.1"
bytes = "1"
erased-serde = "0.3"
futures = "0.3"
http = "0.2"
hyper = { version = "0.14", features = ["server", "http1", "tcp"] }
proc-macro2 = "1"
quote = "1"
serde = { version = "1", features = ["derive"] }
serde_json = { version = "1", features = ["raw_value"] }
syn = { version = "1", features = ["full", "extra-traits"] }
tower-service = "0.3"
type-map = "0.5"
