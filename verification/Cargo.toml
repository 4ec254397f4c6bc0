[package]
name = "neo"
version = "0.1.0"
edition = "2021"
publish = false

[dependencies]
async-stream = "0.3"
env_logger = "0.9"
futures-util = "0.3"
hyper = { version = "0.14", features = ["full"] }
log = "0.4"
rustls = "0.19"
rustls-pemfile = "0.2"
structopt = "0.3"
tokio = { version = "1", features = ["full"] }
tokio-rustls = "0.22"
