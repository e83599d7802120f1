[package]
name = "doip_codec"
version = "0.1.0"
edition = "2021"
publish = false

[dependencies]
heapless = "=0.8.0"
tokio-util = { version = "=0.7.20", features = ["codec"] }
tokio = "=1.54.1"
doip-definitions = "=3.0.14"
thiserror = "=2.0.21"
derive_more = { version = "=2.1.1", features = ["from"] }
pyo3 = "=0.30.1"
