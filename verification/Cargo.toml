[package]
name = "ehyve"
version = "0.1.0"
edition = "2021"
publish = false

[dependencies]
hypervisor = "*"
x86 = "*"
log = "*"
lazy_static = "*"
