[package]
name = "fringe"
version = "0.1.0"
edition = "2021"
publish = false

[dependencies]
page_size = "*"
libc = "*"

[dev-dependencies]
rand = "*"
