[package]
name = "kitties"
version = "0.1.0"
edition = "2021"
publish = false

[dependencies]
parity-scale-codec = { version = "*", features = ["derive", "max-encoded-len"] }
scale-info = { version = "*", features = ["derive"] }
sp-io = "*"
sp-runtime = "*"
sp-crypto-hashing = "*"
bounded-collections = "*"
frame-support = "*"
frame-system = "*"
