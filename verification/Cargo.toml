[package]
name = "xraydb"
version = "0.1.0"
edition = "2021"
publish = false

[dependencies]
ruzstd = "*"
postcard = { version = "*", features = ["alloc"] }
serde = { version = "*", features = ["derive"] }
num-complex = "*"
