[package]
name = "myboot"
version = "0.1.0"
edition = "2021"
publish = false

[dependencies]
uefi = { version = "*", features = ["alloc"] }
uefi-raw = "*"
ext4-view = "*"
