[package]
name = "nanomsg_multi_server"
version = "0.1.0"
edition = "2021"
publish = false

[dependencies]
bincode = "0.9"
serde = "1"
serde_derive = "1"
futures = "0.1"
tokio-core = "0.1"
nanomsg = "0.7"
libc = "0.2"
log = "0.4"
rand = "0.8"
flexi_logger = "0.17"
colored_logger = "0.1"
