[package]
name = "highway_validator"
version = "0.1.0"
edition = "2021"
publish = false

[dependencies]
bytes = "=1.12.1"
casper-hashing = "=3.0.0"
casper-types = { version = "=7.0.0", features = ["std-fs-io"] }
datasize = "=0.2.15"
openssl = "=0.10.81"
prometheus = "=0.13.4"
serde = { version = "=1.0.229", features = ["derive"] }
thiserror = "=1.0.69"
tokio = { version = "=1.54.1", features = ["rt"] }
tracing = "=0.1.44"

[dev-dependencies]
futures = "=0.3.34"
