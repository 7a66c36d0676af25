[package]
name = "psmove"
version = "0.1.0"
edition = "2021"
publish = false

[dependencies]
anyhow = "1"
cgmath = "*"
easings = "*"
futures = "0.3"
heapless = "*"
nix = { version = "*", features = ["ioctl"] }
packed_struct = "*"
scarlet = "*"
tokio = { version = "1", features = ["fs", "io-util", "macros", "net", "rt-multi-thread", "time"] }
tracing = "0.1"
tracing-subscriber = { version = "0.3", features = ["env-filter"] }
udev = "*"
