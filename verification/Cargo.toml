[package]
name = "secbench"
version = "0.1.0"
edition = "2021"
publish = false

[dependencies]
anyhow = "1"
libc = "0.2"
raw-cpuid = { version = "11", default-features = false }
