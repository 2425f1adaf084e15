[package]
name = "anyrun"
version = "0.1.0"
edition = "2021"
publish = false

[dependencies]
abi_stable = "=0.11.3"
clap = { version = "=4.6.7", features = ["derive"] }
env_logger = "=0.10.2"
gtk4 = "=0.7.3"
gtk4-layer-shell = "=0.2.0"
log = "=0.4.34"
nix = { version = "=0.27.1", features = ["process"] }
ron = "0.8"
serde = { version = "1", features = ["derive"] }
wl-clipboard-rs = "=0.8.2"
