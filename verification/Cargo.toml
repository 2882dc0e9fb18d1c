[package]
name = "pendzl_contracts"
version = "0.1.0"
edition = "2021"
publish = false

[dependencies]
ethnum = "1"
ink = "5"
parity-scale-codec = { version = "3", default-features = false, features = ["derive"] }
scale-info = { version = "2", default-features = false, features = ["derive"] }
