[package]
name = "kvm_box"
version = "0.1.0"
edition = "2021"
publish = false

[dependencies]
anyhow = "*"
argh = "*"
kvm-bindings = "*"
kvm-ioctls = "*"
linux-loader = { version = "*", features = ["elf"] }
log = "*"
vm-memory = { version = "*", features = ["backend-mmap"] }
vm-superio = "*"
vmm-sys-util = "*"
