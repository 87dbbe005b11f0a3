[package]
name = "vsock_bridge"
version = "0.1.0"
edition = "2021"
publish = false

[dependencies]
bytefmt = "=0.1.7"
clap = "=2.34.0"
nix = { version = "=0.31.3", features = ["event", "socket"] }
vsock = "=0.5.4"
