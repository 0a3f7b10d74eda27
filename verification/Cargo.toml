[package]
name = "cream"
version = "0.1.0"
edition = "2021"
publish = false

[dependencies]
tokio = { version = "1", features = ["sync", "rt", "rt-multi-thread", "time"] }
tokio-util = { version = "0.7", features = ["rt"] }
syn = "2"
proc-macro2 = "1"
quote = "1"
