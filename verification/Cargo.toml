[package]
name = "attention"
version = "0.1.0"
edition = "2021"
publish = false

[dependencies]
burn = { version = "=0.9.0", default-features = false, features = ["std", "dataset-minimal"] }
bincode = { version = "=2.0.0-rc.3", default-features = false, features = ["alloc", "serde"] }
