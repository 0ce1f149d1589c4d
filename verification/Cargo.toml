[package]
name = "rs_matter_stack"
version = "0.1.0"
edition = "2021"
publish = false

[dependencies]
bitflags = "2"
edge-nal = "=0.7.0"
edge-nal-std = "=0.7.0"
embassy-futures = "0.1"
embassy-sync = "=0.8.0"
embassy-time = "=0.5.1"
embedded-svc = "=0.28.1"
heapless = "=0.8.0"
log = "0.4"
nix = { version = "=0.31.3", features = ["net"] }
rand_core = "=0.9.5"
scopeguard = "1"
