[package]
name = "drogue_device"
version = "0.1.0"
edition = "2021"
publish = false

[dependencies]
heapless = "=0.8.0"
embedded-hal = { version = "=0.2.7", features = ["unproven"] }
