[package]
name = "server_timing"
version = "0.1.0"
edition = "2021"
publish = false

[dependencies]
http = "1"
macro-toolset = "*"
pin-project-lite = "0.2"
tower-layer = "0.3"
tower-service = "0.3"
tracing = "0.1"
