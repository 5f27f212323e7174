[package]
name = "zeroshot"
version = "0.1.0"
edition = "2021"
publish = false

[dependencies]
async-trait = "0.1"
futures-util = "0.3"
tokio = { version = "1", features = ["io-util", "macros", "process", "rt", "sync", "time"] }
