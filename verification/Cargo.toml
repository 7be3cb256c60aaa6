[package]
name = "gvwrap"
version = "0.1.0"
edition = "2021"
publish = false

[dependencies]
graphviz-sys = "*"
libc = "*"
