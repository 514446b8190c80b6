[package]
name = "cl3"
version = "0.1.0"
edition = "2021"
publish = false

[dependencies]
cl-sys = { version = "=0.4.3", features = ["opencl_version_2_0", "opencl_version_2_1"] }
libc = "=0.2.191"
