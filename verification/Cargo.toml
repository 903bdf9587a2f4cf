[package]
name = "krun_host"
version = "0.1.0"
edition = "2021"
publish = false

[dependencies]
crossbeam-channel = "0.5"
libc = "=0.2.191"
log = "0.4"
nix = { version = "=0.30.1", features = ["fs"] }
rutabaga_gfx = "=0.1.2"
vm-memory = { version = "=0.16.2", features = ["backend-mmap"] }
