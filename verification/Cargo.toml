[package]
name = "nakama_adapter"
version = "0.1.0"
edition = "2021"
publish = false

[dependencies]
nakama-rs = "=0.1.1"
nanoserde = "=0.1.37"
libc = "=0.2.191"
lazy_static = "=1.5.1"
