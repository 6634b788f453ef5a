[package]
name = "providence"
version = "0.1.0"
edition = "2021"
publish = false

[dependencies]
argh = "0.1"
futures = "0.3"
rmp-serde = "1"
serde = { version = "1", features = ["derive"] }
snafu = { version = "0.7", features = ["rust_1_61"] }
tokio = { version = "1", features = ["io-util", "macros", "process", "rt-multi-thread", "sync", "time"] }
tokio-util = { version = "0.7", features = ["io", "io-util"] }
tracing = "0.1"
tracing-subscriber = { version = "0.3", features = ["env-filter"] }
