[package]
name = "opentracing_rs"
version = "0.1.0"
edition = "2021"
publish = false

[dependencies]
bytes = "0.4"
futures = "0.1"
rand = "0.6"
thrift = "0.12"
tokio = "0.1"
