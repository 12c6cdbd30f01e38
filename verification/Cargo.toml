[package]
name = "body_drain"
version = "0.1.0"
edition = "2021"
publish = false

[dependencies]
iron = "*"
