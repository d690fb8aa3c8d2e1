[package]
name = "multiping"
version = "0.1.0"
edition = "2021"
publish = false

[dependencies]
regex = "1"
structopt = "0.3"
tokio = { version = "1", features = ["rt-multi-thread", "macros", "process", "io-util", "sync"] }
