[package]
name = "siminau_rpc"
version = "0.1.0"
edition = "2021"
publish = false

[dependencies]
rmp = "=0.8.10"
rmpv = { version = "=0.4.7", features = ["with-serde"] }
rmp-serde = "=0.14.4"
serde = "=1.0.229"
futures = "=0.1.31"
tokio-core = "=0.1.18"
tokio-io = "=0.1.13"
