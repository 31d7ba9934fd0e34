[package]
name = "balance"
version = "0.1.0"
edition = "2021"
publish = false

[dependencies]
sp-arithmetic = { version = "=29.0.0", features = ["std"] }
sp-core = { version = "=43.0.0", default-features = false }
parity-scale-codec = { version = "=3.7.5", features = ["derive"] }
num-traits = { version = "=0.2.19" }
static_assertions = { version = "=1.1.0" }
