[package]
name = "dpdk-io"
version = "0.1.0"
edition = "2021"
publish = false

[dependencies]
libc = "0.2"
oneshot = "0.1"
pin-project-lite = "0.2"
tokio = "1"
