[package]
name = "hfmirror"
version = "0.1.0"
edition = "2021"
publish = false

[dependencies]
url = "*"
reqwest = { version = "*", default-features = false, features = ["stream"] }
tokio = { version = "*", features = ["rt-multi-thread", "macros", "fs", "io-util", "process", "sync"] }
futures-util = "*"
indicatif = "*"
clap = { version = "*", features = ["derive"] }
