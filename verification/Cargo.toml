[package]
name = "rpc_transport"
version = "0.1.0"
edition = "2021"
publish = false

[dependencies]
http = "=0.2.12"
h2 = "=0.3.27"
bytes = "1"
tokio = { version = "1", features = ["rt", "net", "sync", "time", "io-util", "macros"] }
tokio-native-tls = "=0.3.1"
native-tls = { version = "=0.2.18", features = ["alpn"] }
hyper = { version = "=0.14.32", features = ["client", "server", "http2", "tcp", "stream"] }
hyper-timeout = "0.4"
tower = { version = "=0.4.13", features = ["balance", "buffer", "discover", "limit", "load", "make", "timeout", "util"] }
tower-service = "0.3"
futures-core = "0.3"
futures-util = "0.3"
async-stream = "0.3"
axum = { version = "=0.5.17", default-features = false }
pin-project = "1"
http-body = "0.4"
