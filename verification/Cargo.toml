[package]
name = "tari_node_stack"
version = "0.1.0"
edition = "2021"
publish = false

[dependencies]
blake2 = "*"
chrono = "*"
cidr = "*"
futures = "*"
log = "*"
multiaddr = "*"
qrcode = { version = "*", default-features = false }
tokio = { version = "*", features = ["rt", "sync", "time", "macros"] }
tower = "*"
