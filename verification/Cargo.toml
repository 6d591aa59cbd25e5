[package]
name = "librsync"
version = "0.2.3"
edition = "2021"
publish = false

[dependencies]
libc = "0.2"
log = "0.4"

[dev-dependencies]
fast_rsync = "*"
