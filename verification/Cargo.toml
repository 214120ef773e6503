[package]
name = "tcp_pty"
version = "0.1.0"
edition = "2021"
publish = false

[dependencies]
nix = "0.26"
tokio = { version = "1", features = ["net", "io-util", "rt", "macros"] }
futures = "0.3"
exec = "0.3"
