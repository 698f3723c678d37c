[package]
name = "fzy_tmux"
version = "0.1.0"
edition = "2021"
publish = false

[dependencies]
anyhow = "1"
libc = "0.2"
tempfile = "3"
