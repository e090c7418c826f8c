[package]
name = "waveshare_watch"
version = "0.1.0"
edition = "2021"
publish = false

[dependencies]
embedded-hal = "1.0"
embedded-io = "0.6"
embedded-graphics = "0.8"
embedded-graphics-core = "0.4"
embassy-time = "*"
embassy-net = { version = "*", features = ["tcp", "proto-ipv4", "medium-ethernet"] }
