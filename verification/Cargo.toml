[package]
name = "vine"
version = "0.1.0"
edition = "2021"
publish = false

[dependencies]
chrono = "=0.4.45"
etcd-client = "=0.9.2"
tokio = { version = "=1.53.2", features = ["sync", "rt", "time", "macros"] }
async-trait = "=0.1.92"
serde = { version = "=1.0.229", features = ["derive"] }
serde_json = "=1.0.151"
tonic = "=0.14.6"
backtrace = "=0.3.76"
once_cell = "=1.21.4"
itertools = "=0.15.0"
bytes = "=1.12.1"
