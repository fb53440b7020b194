[package]
name = "hvisor_x86"
version = "0.1.0"
edition = "2021"
publish = false

[dependencies]
bit_field = "=0.10.3"
lazy_static = "=1.5.1"
raw-cpuid = "=11.6.0"
spin = "=0.9.9"
x2apic = "0.5"
x86_64 = { version = "0.15", default-features = false, features = ["instructions"] }
