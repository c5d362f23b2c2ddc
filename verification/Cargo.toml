[package]
name = "async_stream_packed"
version = "0.1.0"
edition = "2021"
publish = false

[dependencies]
futures-io = "0.3"
futures-util = "0.3"
futures-timer = "3"
