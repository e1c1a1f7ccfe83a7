[package]
name = "scalap_batch"
version = "0.1.0"
edition = "2021"
publish = false

[dependencies]
clap = { version = "*", features = ["derive"] }
futures = "*"
tokio = { version = "*", features = ["macros", "rt-multi-thread", "fs", "process", "io-util"] }
walkdir = "*"
