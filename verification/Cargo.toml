[package]
name = "ferrobus"
version = "0.1.0"
edition = "2021"
publish = false

[dependencies]
backon = { version = "1", features = ["tokio-sleep"] }
bytes = "1"
futures = "0.3"
thiserror = "2"
tokio = { version = "1", features = ["io-util", "macros", "net", "rt-multi-thread", "sync", "time"] }
tokio-util = { version = "0.7", features = ["codec"] }
tracing = "0.1"
tracing-subscriber = { version = "0.3", features = ["env-filter", "fmt"] }
