[package]
name = "hyp"
version = "0.1.0"
edition = "2021"
publish = false

[dependencies]
once_cell = { version = "=1.21.4", default-features = false, features = ["alloc", "race"] }
psci = "=0.1.3"
uuid = { version = "=1.29.0", default-features = false }
