[package]
name = "pkvm_plat"
version = "0.1.0"
edition = "2021"
publish = false

[dependencies]
axplat = { version = "=0.4.2", features = ["irq"] }
aarch64-cpu = "=11.2.0"
kspin = "=0.2.0"
log = "=0.4.34"
spin = "=0.10.1"
