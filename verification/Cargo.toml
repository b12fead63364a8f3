[package]
name = "json_rpc"
version = "0.1.0"
edition = "2021"
publish = false

[dependencies]
base64 = "=0.13.1"
futures-core = "=0.3.34"
futures-util = "=0.3.34"
hyper = { version = "=0.14.32", features = ["client", "http1", "tcp"] }
hyper-tls = "=0.5.0"
serde = { version = "=1.0.229", features = ["derive"] }
serde_json = { version = "=1.0.154", features = ["preserve_order"] }
tower-service = "=0.3.3"
tower-util = "=0.3.1"
