[package]
name = "rv_kernel"
version = "0.1.0"
edition = "2021"
publish = false

[dependencies]
bit_field = "*"
riscv = "*"
buddy_system_allocator = "*"
