[package]
name = "ioprio"
version = "0.1.0"
edition = "2021"
publish = false

[dependencies]
libc = "*"
nix = "*"
iou = "*"
