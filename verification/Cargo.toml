[package]
name = "qubit_concurrent"
version = "0.1.0"
edition = "2021"
publish = false

[dependencies]
log = "=0.4.35"
prism3-function = "=0.5.0"
qubit-function = { version = "=0.18.3", features = ["once"] }
thiserror = "=2.0.21"
tokio = { version = "=1.54.1", features = ["sync", "rt", "rt-multi-thread", "time", "macros"] }
