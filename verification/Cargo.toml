[package]
name = "pywr_core"
version = "0.1.0"
edition = "2021"
publish = false

[dependencies]
ndarray = "=0.17.2"
num = "=0.4.3"
polars = { version = "=0.55.2", default-features = false, features = ["ndarray"] }
pywr-v1-schema = "=0.25.1"
serde = { version = "=1.0.229", features = ["derive"] }
serde_json = "=1.0.154"
svgbobdoc = "=0.3.0"
thiserror = "=2.0.21"
wasmer = "4.4"
