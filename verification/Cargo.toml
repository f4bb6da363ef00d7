[package]
name = "shim_core"
version = "0.1.0"
edition = "2021"
publish = false

[dependencies]
containerd-shim-protos = { version = "=0.11.0", features = ["sandbox"] }
protobuf = "=3.7.2"
prometheus = { version = "=0.14.0", default-features = false }
procfs = "=0.18.0"
