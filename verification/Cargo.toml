[package]
name = "os"
version = "0.1.0"
edition = "2021"
publish = false

[dependencies]
riscv = "=0.16.1"
sbi-rt = "=0.0.4"
buddy_system_allocator = "=0.13.0"
lazy_static = "=1.5.1"
