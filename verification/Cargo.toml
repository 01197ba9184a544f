[package]
name = "aware"
version = "0.1.0"
edition = "2021"
publish = false

[dependencies]
anyhow = "=1.0.104"
aws-config = { version = "=1.13.0", default-features = false, features = ["rt-tokio"] }
aws-sdk-cloudformation = { version = "=1.134.0", default-features = false, features = ["rt-tokio"] }
aws-types = "=1.7.0"
clap = { version = "=4.6.7", features = ["derive"] }
indicatif = "=0.18.6"
ptree = { version = "=0.5.2", default-features = false }
termtree = "=1.0.0"
tokio = { version = "=1.54.1", features = ["macros", "rt-multi-thread"] }
tokio-stream = "=0.1.19"
tracing-subscriber = "=0.3.23"
