[package]
name = "polished_boot"
version = "0.1.0"
edition = "2021"
publish = false

[dependencies]
x86_64 = { version = "=0.15.5", default-features = false, features = ["instructions"] }
uefi = { version = "=0.41.0", features = ["alloc"] }
uart_16550 = "=0.3.2"
linked_list_allocator = "=0.10.6"
libm = "=0.2.16"
