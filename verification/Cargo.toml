[package]
name = "minikvm"
version = "0.1.0"
edition = "2021"
publish = false

[dependencies]
kvm-bindings = "=0.14.1"
libc = "=0.2.190"
nix = { version = "=0.29.0", features = ["fs", "ioctl", "mman"] }
