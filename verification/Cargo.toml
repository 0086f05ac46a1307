[package]
name = "tcpip_tester"
version = "0.1.0"
edition = "2021"
publish = false

[dependencies]
pnet = "*"
tokio = { version = "*", features = ["rt-multi-thread", "net"] }
reqwest = { version = "*", default-features = false }
