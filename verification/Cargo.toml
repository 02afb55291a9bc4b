[package]
name = "vwfl"
version = "0.1.0"
edition = "2021"
publish = false

[dependencies]
object = "0.36"
kvm-ioctls = "*"
kvm-bindings = { version = "*", features = ["fam-wrappers"] }
libc = "0.2"
gdbstub = "0.7"
gdbstub_arch = "0.3"
lazy_static = "1"
