[package]
name = "popsicle"
version = "0.1.0"
edition = "2021"
publish = false

[dependencies]
sp-core = "=43.0.0"
sp-runtime = "=49.0.0"
staging-xcm = "=25.0.0"
serde = { version = "=1.0.229", features = ["derive"] }
frame-support = "=49.0.1"
frame-system = "*"
parity-scale-codec = { version = "3", features = ["derive"] }
scale-info = { version = "2", features = ["derive"] }
