[package]
name = "planet_view"
version = "0.1.0"
edition = "2021"
publish = false

[dependencies]
cgmath = "0.18"
mint = "0.5"
indicatif = "0.15"
structopt = "0.3"
tokio = { version = "1", features = ["rt", "rt-multi-thread"] }
wgpu = { version = "*", default-features = false }
