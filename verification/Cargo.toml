[package]
name = "virtio_pmem"
version = "0.1.0"
edition = "2021"
publish = false

[dependencies]
vmm-sys-util = "*"
libc = "*"
kvm-ioctls = "*"
kvm-bindings = "*"
serde = { version = "*", features = ["derive"] }
serde_json = "*"
