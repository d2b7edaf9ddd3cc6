[package]
name = "etcd-client"
version = "0.1.0"
edition = "2021"
publish = false

[dependencies]
h2 = "0.4"
http = "1"
prost = "0.14"
tokio = { version = "1", features = ["macros", "rt", "sync", "time"] }
tokio-stream = "0.1"
tonic = { version = "0.14", features = ["tls-ring"] }
tonic-prost = "0.14"
tracing = "0.1"
