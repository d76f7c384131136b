[package]
name = "impression"
version = "0.1.0"
edition = "2021"
publish = false

[dependencies]
tokio = { version = "*", features = ["fs", "io-util", "process", "rt-multi-thread", "time", "macros"] }
reqwest = { version = "*", default-features = false, features = ["stream"] }
futures = "*"
udisks2 = "*"
libc = "*"
