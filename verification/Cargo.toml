[package]
name = "kx_pq"
version = "0.1.0"
edition = "2021"
publish = false

[dependencies]
openssl = "=0.10.81"
openssl-sys = "=0.9.117"
rustls = { version = "=0.23.45", default-features = false, features = ["std"] }
zeroize = "=1.9.1"
