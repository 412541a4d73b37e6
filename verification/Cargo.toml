[package]
name = "vnet"
version = "0.1.0"
edition = "2021"
publish = false

[dependencies]
macaddr = "1"
rand = "0.9"
ractor = "*"
tokio = { version = "1", features = ["full"] }
tracing = "0.1"
tracing-subscriber = "0.3"
futures = "0.3"
const-addrs = "*"
