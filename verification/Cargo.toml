[package]
name = "capycoding"
version = "0.1.0"
edition = "2021"
publish = false

[dependencies]
microjson = "=0.1.6"

[dev-dependencies]
postcard = { version = "=1.1.3", features = ["alloc"] }
