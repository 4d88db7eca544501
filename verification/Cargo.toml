[package]
name = "osp_core"
version = "0.1.0"
edition = "2021"
publish = false

[dependencies]
openssl = "0.10"
uuid = { version = "1", features = ["v4"] }
tokio = { version = "1", features = ["full"] }
tokio-util = { version = "0.7", features = ["codec"] }
tokio-stream = "0.1"
futures-util = "0.3"
bytes = "1"
log = "0.4"
bincode = "2"
trust-dns-resolver = "0.23"
url = "2"
