[package]
name = "quic_transport"
version = "0.1.0"
edition = "2021"
publish = false

[dependencies]
s2n-quic-core = { version = "*", default-features = false, features = ["alloc"] }
smallvec = "1"
structopt = "0.3"
tokio = { version = "1", features = ["rt", "macros"] }
