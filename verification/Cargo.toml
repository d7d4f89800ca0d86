[package]
name = "heap_mvcc"
version = "0.1.0"
edition = "2021"
publish = false

[dependencies]
rand = "*"
