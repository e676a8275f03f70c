[package]
name = "poll_bridge"
version = "0.1.0"
edition = "2021"
publish = false

[dependencies]
futures = "0.1"
futures-core = "0.3"
futures-io = "0.3"
futures-task = "0.3"
mio = "0.6"
