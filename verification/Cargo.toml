[package]
name = "termcore"
version = "0.1.0"
edition = "2021"
publish = false

[dependencies]
tokio = { version = "1", features = ["rt-multi-thread", "io-util", "io-std", "sync", "time", "macros"] }
libc = "0.2"
