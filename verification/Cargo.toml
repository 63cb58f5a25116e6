[package]
name = "real_eigen"
version = "0.1.0"
edition = "2021"
publish = false

[dependencies]
lapack = { version = "0.19", default-features = false }
num-complex = { version = "0.4", default-features = false }
num-traits = "0.2"
serde = { version = "1", features = ["derive"] }
simba = "0.8"
