[package]
name = "udp_socket"
version = "0.1.0"
edition = "2021"
publish = false

[dependencies]
socket2 = { version = "=0.3.19", features = ["reuseport"] }
