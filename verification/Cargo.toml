[package]
name = "metrics_sidecar"
version = "0.1.0"
edition = "2021"
publish = false

[dependencies]
bollard = "*"
futures-util = "*"
log = "*"
warp = "*"
