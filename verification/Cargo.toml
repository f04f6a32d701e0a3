[package]
name = "fimfarchive_edge"
version = "0.1.0"
edition = "2021"
publish = false

[dependencies]
axum = "*"
tokio = { version = "*", features = ["rt-multi-thread", "macros", "net", "fs", "io-util"] }
tokio-util = { version = "*", features = ["io"] }
