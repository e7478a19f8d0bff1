[package]
name = "inbound_policy"
version = "0.1.0"
edition = "2021"
publish = false

[dependencies]
regex = "=1.13.1"
http = "=1.5.0"
ipnet = "2"
tokio = { version = "1", features = ["sync", "macros", "rt-multi-thread"] }
tonic = "*"
futures = "0.3"
async-stream = "0.3"
async-trait = "0.1"
drain = "*"
k8s-gateway-api = "*"
k8s-openapi = { version = "=0.20.0", features = ["latest"] }
linkerd2-proxy-api = { version = "*", features = ["inbound"] }
