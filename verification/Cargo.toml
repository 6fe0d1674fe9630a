[package]
name = "genetic-analysts"
version = "0.1.0"
edition = "2021"
publish = false

[dependencies]
frame-support = "=38.2.0"
frame-system = "=38.0.0"
log = "=0.4.34"
pallet-timestamp = "=37.0.0"
parity-scale-codec = { version = "=3.7.5", features = ["derive"] }
scale-info = { version = "=2.11.6", features = ["derive"] }
