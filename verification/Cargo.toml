[package]
name = "vki"
version = "0.1.0"
edition = "2021"
publish = false

[dependencies]
ash = "=0.29.0"
vk-mem = "=0.2.0"
typed-arena = "=2.0.2"
smallvec = "=1.16.4"
parking_lot = "=0.12.5"
log = "=0.4.35"
lazy_static = "=1.5.1"
libc = "=0.2.191"
raw-window-handle = "=0.3.4"
bitflags = "=1.3.2"
