[package]
name = "block_enum"
version = "0.1.0"
edition = "2021"
publish = false

[dependencies]
log = "*"
uefi = { version = "*", features = ["alloc"] }
