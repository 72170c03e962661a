[package]
name = "ipify_cli"
version = "0.1.0"
edition = "2021"
publish = false

[dependencies]
clap = "2"
hyper = { version = "0.14", features = ["client", "http1", "tcp"] }
hyper-tls = "0.5"
tokio = { version = "1", features = ["macros", "rt-multi-thread"] }
