[package]
name = "parachain_blocks"
version = "0.1.0"
edition = "2021"
publish = false

[dependencies]
revm = { version = "27", default-features = false }
parity-scale-codec = { version = "3", features = ["derive"] }
scale-info = { version = "2", features = ["derive"] }
futures = "0.3"
parking_lot = "0.12"
log = "0.4"
tracing = "0.1"
