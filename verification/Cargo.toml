[package]
name = "kvm_control"
version = "0.1.0"
edition = "2021"
publish = false

[dependencies]
kvm-bindings = { version = "=0.14.2", default-features = false }
nix = { version = "=0.29.0", default-features = false, features = ["fs", "ioctl", "mman"] }
