[package]
name = "x86_vcpu_state"
version = "0.1.0"
edition = "2021"
publish = false

[dependencies]
x86 = "=0.52.0"
x86_64 = { version = "=0.15.5", default-features = false, features = ["instructions"] }
raw-cpuid = "=11.6.0"
axaddrspace = "=0.1.5"
