[package]
name = "async_smoltcp"
version = "0.1.0"
edition = "2021"
publish = false

[dependencies]
futures = "0.3"
log = "0.4"
smoltcp = "0.7"
tokio = "1"
