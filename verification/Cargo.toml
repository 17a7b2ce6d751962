[package]
name = "boottime"
version = "0.1.0"
edition = "2021"
publish = false

[dependencies]
zbus = "*"
libc = "*"
alpm = "*"
