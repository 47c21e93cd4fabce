[package]
name = "kernel_chirho"
version = "0.1.0"
edition = "2021"
publish = false

[dependencies]
x86_64 = { version = "=0.15.5", default-features = false, features = ["instructions"] }
spin = "=0.9.9"
bootloader_api = "=0.11.17"
buddy-alloc = "*"
