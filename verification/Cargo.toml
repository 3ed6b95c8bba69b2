[package]
name = "bbk_exporter"
version = "0.1.0"
edition = "2021"

[dependencies]
prometheus = "*"
clap = { version = "*", features = ["derive"] }
tokio = { version = "*", features = ["full"] }
hyper = { version = "*", features = ["full"] }
hyper-util = { version = "*", features = ["full"] }
http-body-util = "*"
